use fetched::enums::ContainerPositions;
use fetched::helpers::{
    find_position, get_inner, get_width_by_ratio, wrap_decrement, wrap_increment, Rect,
};

#[test]
fn widths_are_tenths_times_slices() {
    assert_eq!(get_width_by_ratio(100, vec![3, 3, 4]), vec![30, 30, 40]);
    assert_eq!(get_width_by_ratio(57, vec![1, 9]), vec![5, 45]);
    assert_eq!(get_width_by_ratio(9, vec![7, 1]), vec![0, 0]);
    assert_eq!(get_width_by_ratio(80, Vec::new()), Vec::<u16>::new());
}

#[test]
fn inner_area_moves_the_corner_and_shrinks() {
    let area = Rect { x: 10, y: 20, width: 30, height: 8 };
    assert_eq!(get_inner(area, 1, 2, 2, 1), Rect { x: 11, y: 22, width: 28, height: 7 });
    assert_eq!(get_inner(area, 1, 0, 2, 1), Rect { x: 11, y: 20, width: 28, height: 7 });
}

#[test]
fn inner_area_height_stops_at_nothing() {
    let area = Rect { x: 0, y: 0, width: 5, height: 2 };
    assert_eq!(get_inner(area, 0, 0, 5, 3), Rect { x: 0, y: 0, width: 0, height: 0 });
}

#[test]
fn inner_area_is_cut_at_the_edge_of_the_coordinates() {
    let area = Rect { x: 65000, y: 65530, width: 1000, height: 100 };
    assert_eq!(
        get_inner(area, 500, 3, 0, 0),
        Rect { x: 65500, y: 65533, width: 35, height: 2 }
    );
}

#[test]
fn wrap_increment_goes_round() {
    assert_eq!(wrap_increment(0, 4), 1);
    assert_eq!(wrap_increment(2, 4), 3);
    assert_eq!(wrap_increment(3, 4), 0);
    assert_eq!(wrap_increment(0, 1), 0);
    assert_eq!(wrap_increment(9, 4), 0);
    assert_eq!(wrap_increment(usize::MAX, 4), 0);
    assert_eq!(wrap_increment(0, 0), 0);
}

#[test]
fn wrap_decrement_goes_round() {
    assert_eq!(wrap_decrement(3, 4), 2);
    assert_eq!(wrap_decrement(1, 4), 0);
    assert_eq!(wrap_decrement(0, 4), 3);
    assert_eq!(wrap_decrement(0, 1), 0);
    assert_eq!(wrap_decrement(9, 4), 3);
    assert_eq!(wrap_decrement(0, 0), 0);
}

#[test]
fn wrapping_back_and_forth_returns() {
    for count in 1..6usize {
        for index in 0..count {
            assert_eq!(wrap_decrement(wrap_increment(index, count), count), index);
            assert_eq!(wrap_increment(wrap_decrement(index, count), count), index);
            assert_eq!(wrap_increment(index, count), (index + 1) % count);
        }
    }
}

#[test]
fn bottom_position_takes_the_last_rows() {
    let area = Rect { x: 2, y: 10, width: 40, height: 20 };
    assert_eq!(
        find_position(ContainerPositions::Bottom, 5, area),
        Rect { x: 2, y: 25, width: 40, height: 5 }
    );
    assert_eq!(
        find_position(ContainerPositions::Bottom, 0, area),
        Rect { x: 2, y: 30, width: 40, height: 0 }
    );
    assert_eq!(
        find_position(ContainerPositions::Bottom, 30, area),
        Rect { x: 2, y: 0, width: 40, height: 30 }
    );
}

#[test]
fn other_positions_take_the_whole_area() {
    let area = Rect { x: 2, y: 10, width: 40, height: 20 };
    for position in [
        ContainerPositions::Top,
        ContainerPositions::Middle,
        ContainerPositions::Center,
        ContainerPositions::Full,
    ] {
        assert_eq!(find_position(position, 5, area), area);
    }
}
