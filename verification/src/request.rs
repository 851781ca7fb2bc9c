//! The request document: what one saved HTTP request holds, the mappings
//! from names to values inside it, and the rule by which an edited header is
//! merged into it.

use std::collections::HashMap;
use vstd::prelude::*;
use vstd::string::*;

use crate::text::char_count;

verus! {

/// The mapping that a list of name and value pairs stands for, where a later
/// pair replaces an earlier one with the same name.
pub open spec fn pairs_to_map(pairs: Seq<(Seq<char>, Seq<char>)>) -> Map<Seq<char>, Seq<char>>
    decreases pairs.len(),
{
    if pairs.len() == 0 {
        Map::empty()
    } else {
        pairs_to_map(pairs.drop_last()).insert(pairs.last().0, pairs.last().1)
    }
}

/// Whether no name occurs twice among the pairs.
pub open spec fn distinct_names(pairs: Seq<(Seq<char>, Seq<char>)>) -> bool {
    forall|i: int, j: int|
        0 <= i < pairs.len() && 0 <= j < pairs.len() && i != j ==> pairs[i].0 != pairs[j].0
}

/// The names and values of the pairs as plain texts.
pub open spec fn pair_views(entries: Seq<(String, String)>) -> Seq<(Seq<char>, Seq<char>)> {
    entries.map_values(|entry: (String, String)| (entry.0@, entry.1@))
}

/// A name is mapped exactly when some pair carries it.
proof fn lemma_map_names(pairs: Seq<(Seq<char>, Seq<char>)>, name: Seq<char>)
    ensures
        pairs_to_map(pairs).contains_key(name) <==> exists|i: int|
            0 <= i < pairs.len() && (#[trigger] pairs[i]).0 == name,
    decreases pairs.len(),
{
    if pairs.len() == 0 {
    } else {
        let front = pairs.drop_last();
        lemma_map_names(front, name);
        if pairs_to_map(pairs).contains_key(name) {
            if pairs.last().0 == name {
                assert(pairs[pairs.len() - 1].0 == name);
            } else {
                let i = choose|i: int| 0 <= i < front.len() && (#[trigger] front[i]).0 == name;
                assert(pairs[i].0 == name);
            }
        }
        if exists|i: int| 0 <= i < pairs.len() && (#[trigger] pairs[i]).0 == name {
            let i = choose|i: int| 0 <= i < pairs.len() && (#[trigger] pairs[i]).0 == name;
            if i < pairs.len() - 1 {
                assert(front[i].0 == name);
            }
        }
    }
}

/// Pairs with distinct names still have distinct names without the last pair.
proof fn lemma_distinct_front(pairs: Seq<(Seq<char>, Seq<char>)>)
    requires
        distinct_names(pairs),
        pairs.len() > 0,
    ensures
        distinct_names(pairs.drop_last()),
{
    let front = pairs.drop_last();
    assert forall|i: int, j: int|
        0 <= i < front.len() && 0 <= j < front.len() && i != j implies front[i].0
        != front[j].0 by {
        assert(pairs[i].0 != pairs[j].0);
    }
}

/// Among pairs with distinct names, each pair's name is mapped to its value.
proof fn lemma_map_value(pairs: Seq<(Seq<char>, Seq<char>)>, at: int)
    requires
        distinct_names(pairs),
        0 <= at < pairs.len(),
    ensures
        pairs_to_map(pairs).contains_key(pairs[at].0),
        pairs_to_map(pairs)[pairs[at].0] == pairs[at].1,
    decreases pairs.len(),
{
    let front = pairs.drop_last();
    if at == pairs.len() - 1 {
    } else {
        lemma_distinct_front(pairs);
        lemma_map_value(front, at);
        assert(front[at] == pairs[at]);
        assert(pairs[at].0 != pairs[pairs.len() - 1].0);
    }
}

/// Replacing the value of the one pair that carries a name overwrites that
/// name in the mapping.
proof fn lemma_map_update(pairs: Seq<(Seq<char>, Seq<char>)>, at: int, value: Seq<char>)
    requires
        distinct_names(pairs),
        0 <= at < pairs.len(),
    ensures
        pairs_to_map(pairs.update(at, (pairs[at].0, value))) == pairs_to_map(pairs).insert(
            pairs[at].0,
            value,
        ),
        distinct_names(pairs.update(at, (pairs[at].0, value))),
    decreases pairs.len(),
{
    let name = pairs[at].0;
    let after = pairs.update(at, (name, value));
    let front = pairs.drop_last();
    assert(distinct_names(after)) by {
        assert forall|i: int, j: int|
            0 <= i < after.len() && 0 <= j < after.len() && i != j implies after[i].0
            != after[j].0 by {
            assert(pairs[i].0 != pairs[j].0);
        }
    }
    if at == pairs.len() - 1 {
        assert(after.drop_last() =~= front);
        assert(pairs_to_map(after) =~= pairs_to_map(pairs).insert(name, value));
    } else {
        lemma_distinct_front(pairs);
        lemma_map_update(front, at, value);
        assert(front[at] == pairs[at]);
        assert(after.drop_last() =~= front.update(at, (name, value)));
        assert(after.last() == pairs.last());
        assert(pairs[at].0 != pairs[pairs.len() - 1].0);
        assert(pairs_to_map(after) =~= pairs_to_map(pairs).insert(name, value));
    }
}

/// Pairs with distinct names stand for a mapping of as many names.
proof fn lemma_map_len(pairs: Seq<(Seq<char>, Seq<char>)>)
    requires
        distinct_names(pairs),
    ensures
        pairs_to_map(pairs).dom().finite(),
        pairs_to_map(pairs).dom().len() == pairs.len(),
    decreases pairs.len(),
{
    if pairs.len() > 0 {
        let front = pairs.drop_last();
        lemma_distinct_front(pairs);
        lemma_map_len(front);
        lemma_map_names(front, pairs.last().0);
        assert(!pairs_to_map(front).contains_key(pairs.last().0)) by {
            if pairs_to_map(front).contains_key(pairs.last().0) {
                let i = choose|i: int|
                    0 <= i < front.len() && (#[trigger] front[i]).0 == pairs.last().0;
                assert(pairs[i].0 == pairs[pairs.len() - 1].0);
            }
        }
        assert(pairs_to_map(pairs).dom() =~= pairs_to_map(front).dom().insert(pairs.last().0));
    }
}

/// A mapping from names to values, both texts, that keeps the order in which
/// the names were first put in. No name occurs twice.
#[derive(Debug)]
pub struct StringMap {
    entries: Vec<(String, String)>,
}

impl View for StringMap {
    type V = Map<Seq<char>, Seq<char>>;

    closed spec fn view(&self) -> Map<Seq<char>, Seq<char>> {
        pairs_to_map(pair_views(self.entries@))
    }
}

impl StringMap {
    #[verifier::type_invariant]
    spec fn well_formed(&self) -> bool {
        distinct_names(pair_views(self.entries@))
    }

    /// The names and values in the order in which the names were put in.
    pub closed spec fn pairs(&self) -> Seq<(Seq<char>, Seq<char>)> {
        pair_views(self.entries@)
    }

    /// The mapping without any name.
    pub fn new() -> (map: Self)
        ensures
            map@ == Map::<Seq<char>, Seq<char>>::empty(),
            map.pairs() == Seq::<(Seq<char>, Seq<char>)>::empty(),
    {
        let map = StringMap { entries: Vec::new() };
        assert(pair_views(map.entries@) =~= Seq::empty());
        map
    }

    /// How many names are mapped.
    pub fn len(&self) -> (count: usize)
        ensures
            count == self.pairs().len(),
            count == self@.dom().len(),
            self@.dom().finite(),
    {
        proof {
            use_type_invariant(self);
            lemma_map_len(self.pairs());
        }
        self.entries.len()
    }

    /// The position of `name` among the pairs.
    fn position(&self, name: &str) -> (found: Option<usize>)
        ensures
            match found {
                Some(at) => at < self.pairs().len() && self.pairs()[at as int].0 == name@,
                None => !self@.contains_key(name@),
            },
    {
        let wanted = String::from_str(name);
        let mut at: usize = 0;
        while at < self.entries.len()
            invariant
                at <= self.entries.len(),
                wanted@ == name@,
                forall|i: int| 0 <= i < at ==> (#[trigger] self.pairs()[i]).0 != name@,
            decreases self.entries.len() - at,
        {
            if self.entries[at].0 == wanted {
                return Some(at);
            }
            at = at + 1;
        }
        proof {
            lemma_map_names(self.pairs(), name@);
        }
        None
    }

    /// Whether `name` is mapped.
    pub fn contains_key(&self, name: &str) -> (found: bool)
        ensures
            found == self@.contains_key(name@),
    {
        proof {
            use_type_invariant(self);
        }
        match self.position(name) {
            Some(at) => {
                proof {
                    lemma_map_value(self.pairs(), at as int);
                }
                true
            },
            None => false,
        }
    }

    /// The value that `name` is mapped to.
    pub fn get(&self, name: &str) -> (value: Option<&String>)
        ensures
            match value {
                Some(text) => self@.contains_key(name@) && self@[name@] == text@,
                None => !self@.contains_key(name@),
            },
    {
        proof {
            use_type_invariant(self);
        }
        match self.position(name) {
            Some(at) => {
                proof {
                    lemma_map_value(self.pairs(), at as int);
                }
                Some(&self.entries[at].1)
            },
            None => None,
        }
    }

    /// The mapping with `name` mapped to `value`, whether or not it was mapped before.
    pub fn insert(self, name: String, value: String) -> (map: Self)
        ensures
            map@ == self@.insert(name@, value@),
    {
        proof {
            use_type_invariant(&self);
        }
        let ghost before = self.pairs();
        let found = self.position(name.as_str());
        let mut entries = self.entries;
        match found {
            Some(at) => {
                proof {
                    lemma_map_update(before, at as int, value@);
                    assert(pair_views(entries@.update(at as int, (name, value))) =~= before.update(
                        at as int,
                        (before[at as int].0, value@),
                    ));
                }
                entries.set(at, (name, value));
            },
            None => {
                proof {
                    lemma_map_names(before, name@);
                    let after = before.push((name@, value@));
                    assert(pair_views(entries@.push((name, value))) =~= after);
                    assert(after.drop_last() =~= before);
                    assert(distinct_names(after));
                }
                entries.push((name, value));
            },
        }
        StringMap { entries }
    }

    /// The name of the pair at `index`.
    pub fn name_at(&self, index: usize) -> (name: &String)
        requires
            index < self.pairs().len(),
        ensures
            name@ == self.pairs()[index as int].0,
            self@.contains_key(name@),
    {
        proof {
            use_type_invariant(self);
            lemma_map_value(self.pairs(), index as int);
        }
        &self.entries[index].0
    }

    /// The value of the pair at `index`.
    pub fn value_at(&self, index: usize) -> (value: &String)
        requires
            index < self.pairs().len(),
        ensures
            value@ == self.pairs()[index as int].1,
            self@.contains_key(self.pairs()[index as int].0),
            self@[self.pairs()[index as int].0] == value@,
    {
        proof {
            use_type_invariant(self);
            lemma_map_value(self.pairs(), index as int);
        }
        &self.entries[index].1
    }
}

impl Clone for StringMap {
    fn clone(&self) -> (map: Self)
        ensures
            map@ == self@,
            map.pairs() == self.pairs(),
    {
        proof {
            use_type_invariant(self);
        }
        let mut entries: Vec<(String, String)> = Vec::new();
        let mut at: usize = 0;
        while at < self.entries.len()
            invariant
                at <= self.entries.len(),
                entries@.len() == at,
                forall|i: int|
                    0 <= i < at ==> (#[trigger] entries@[i]).0@ == self.entries@[i].0@
                        && entries@[i].1@ == self.entries@[i].1@,
            decreases self.entries.len() - at,
        {
            let name = self.entries[at].0.clone();
            let value = self.entries[at].1.clone();
            entries.push((name, value));
            at = at + 1;
        }
        assert(pair_views(entries@) =~= pair_views(self.entries@));
        StringMap { entries }
    }
}

impl Default for StringMap {
    fn default() -> (map: Self)
        ensures
            map@ == Map::<Seq<char>, Seq<char>>::empty(),
    {
        StringMap::new()
    }
}

/// The switches and limits that go with a request.
#[derive(Debug)]
pub struct RequestOptions {
    pub validate_ssl: bool,
    pub follow_redirect: bool,
    pub attach_cookies: bool,
    pub proxy: String,
    pub timeout: u8,
}

/// What a [`RequestOptions`] holds, with its text as a sequence of characters.
pub struct RequestOptionsView {
    pub validate_ssl: bool,
    pub follow_redirect: bool,
    pub attach_cookies: bool,
    pub proxy: Seq<char>,
    pub timeout: u8,
}

impl View for RequestOptions {
    type V = RequestOptionsView;

    open spec fn view(&self) -> RequestOptionsView {
        RequestOptionsView {
            validate_ssl: self.validate_ssl,
            follow_redirect: self.follow_redirect,
            attach_cookies: self.attach_cookies,
            proxy: self.proxy@,
            timeout: self.timeout,
        }
    }
}

impl RequestOptionsView {
    /// The options of a request for which none were chosen.
    pub open spec fn initial() -> RequestOptionsView {
        RequestOptionsView {
            validate_ssl: false,
            follow_redirect: false,
            attach_cookies: false,
            proxy: Seq::empty(),
            timeout: 0,
        }
    }
}

impl Default for RequestOptions {
    fn default() -> (options: Self)
        ensures
            options@ == RequestOptionsView::initial(),
    {
        RequestOptions {
            validate_ssl: false,
            follow_redirect: false,
            attach_cookies: false,
            proxy: String::new(),
            timeout: 0,
        }
    }
}

impl Clone for RequestOptions {
    fn clone(&self) -> (options: Self)
        ensures
            options@ == self@,
    {
        RequestOptions {
            validate_ssl: self.validate_ssl,
            follow_redirect: self.follow_redirect,
            attach_cookies: self.attach_cookies,
            proxy: self.proxy.clone(),
            timeout: self.timeout,
        }
    }
}

/// One saved HTTP request.
#[derive(Debug)]
pub struct RequestStructure {
    pub method: String,
    pub url: String,
    pub headers: StringMap,
    pub query_parameters: StringMap,
    pub body_type: String,
    pub body: String,
    pub options: RequestOptions,
}

/// What a [`RequestStructure`] holds: texts as sequences of characters, and
/// headers and query parameters as mappings.
pub struct RequestView {
    pub method: Seq<char>,
    pub url: Seq<char>,
    pub headers: Map<Seq<char>, Seq<char>>,
    pub query_parameters: Map<Seq<char>, Seq<char>>,
    pub body_type: Seq<char>,
    pub body: Seq<char>,
    pub options: RequestOptionsView,
}

impl View for RequestStructure {
    type V = RequestView;

    open spec fn view(&self) -> RequestView {
        RequestView {
            method: self.method@,
            url: self.url@,
            headers: self.headers@,
            query_parameters: self.query_parameters@,
            body_type: self.body_type@,
            body: self.body@,
            options: self.options@,
        }
    }
}

impl RequestView {
    /// The document in which nothing is filled in.
    pub open spec fn initial() -> RequestView {
        RequestView {
            method: Seq::empty(),
            url: Seq::empty(),
            headers: Map::empty(),
            query_parameters: Map::empty(),
            body_type: Seq::empty(),
            body: Seq::empty(),
            options: RequestOptionsView::initial(),
        }
    }

    /// The document that a newly created request starts from: a `POST` with
    /// no headers, no query parameters and the options nobody chose.
    pub open spec fn template() -> RequestView {
        RequestView { method: "POST"@, ..RequestView::initial() }
    }

    /// The document with the header `name` set to `value`.
    pub open spec fn with_header(self, name: Seq<char>, value: Seq<char>) -> RequestView {
        RequestView { headers: self.headers.insert(name, value), ..self }
    }
}

impl Default for RequestStructure {
    fn default() -> (document: Self)
        ensures
            document@ == RequestView::initial(),
    {
        RequestStructure {
            method: String::new(),
            url: String::new(),
            headers: StringMap::new(),
            query_parameters: StringMap::new(),
            body_type: String::new(),
            body: String::new(),
            options: RequestOptions::default(),
        }
    }
}

impl Clone for RequestStructure {
    fn clone(&self) -> (document: Self)
        ensures
            document@ == self@,
    {
        RequestStructure {
            method: self.method.clone(),
            url: self.url.clone(),
            headers: self.headers.clone(),
            query_parameters: self.query_parameters.clone(),
            body_type: self.body_type.clone(),
            body: self.body.clone(),
            options: self.options.clone(),
        }
    }
}

impl RequestStructure {
    /// The document that a newly created request starts from.
    pub fn template() -> (document: Self)
        ensures
            document@ == RequestView::template(),
    {
        let mut document = RequestStructure::default();
        document.method = String::from_str("POST");
        document
    }
}

/// The field of the header editor that holds the header's name.
pub const HEADER_NAME_FIELD: u8 = 0;

/// The field of the header editor that holds the header's value.
pub const HEADER_VALUE_FIELD: u8 = 1;

/// The field of the header editor that commits the header: the Add button.
pub const HEADER_COMMIT_FIELD: u8 = 2;

/// The texts typed into the fields of a composite widget, by field.
pub open spec fn buffer_texts(buffer: Map<u8, String>) -> Map<u8, Seq<char>> {
    buffer.map_values(|text: String| text@)
}

/// The text of a field of the buffer, empty where nothing was typed into it.
pub open spec fn field_text(buffer: Map<u8, Seq<char>>, field: u8) -> Seq<char> {
    if buffer.contains_key(field) {
        buffer[field]
    } else {
        Seq::empty()
    }
}

/// What committing the header editor makes of a document: the header named
/// in the name field is set to the text of the value field. Without a name
/// there is nothing to commit.
pub open spec fn spec_edit_headers(data: RequestView, buffer: Map<u8, Seq<char>>) -> Option<
    RequestView,
> {
    if field_text(buffer, HEADER_NAME_FIELD).len() == 0 {
        None
    } else {
        Some(
            data.with_header(
                field_text(buffer, HEADER_NAME_FIELD),
                field_text(buffer, HEADER_VALUE_FIELD),
            ),
        )
    }
}

/// The text of a field of the buffer, empty where nothing was typed into it.
pub fn buffer_field(input_buffer: &HashMap<u8, String>, field: u8) -> (text: String)
    ensures
        text@ == field_text(buffer_texts(input_buffer@), field),
{
    broadcast use vstd::std_specs::hash::group_hash_axioms;

    match input_buffer.get(&field) {
        Some(text) => text.clone(),
        None => String::new(),
    }
}

/// Commits the header editor: the document with the edited header merged
/// into its headers, to be written in place of `data`. `None` where the name
/// field is empty, when nothing is to be written.
pub fn request_widget_edit_headers_enter_event(
    input_buffer: &HashMap<u8, String>,
    data: &RequestStructure,
) -> (merged: Option<RequestStructure>)
    ensures
        match merged {
            Some(document) => Some(document@),
            None => None,
        } == spec_edit_headers(data@, buffer_texts(input_buffer@)),
{
    let name = buffer_field(input_buffer, HEADER_NAME_FIELD);
    if char_count(&name) == 0 {
        return None;
    }
    let value = buffer_field(input_buffer, HEADER_VALUE_FIELD);
    let mut document = data.clone();
    document.headers = document.headers.insert(name, value);
    Some(document)
}

} // verus!
