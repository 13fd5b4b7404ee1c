use rogue_tactics::vectors::diagonal_direction_list;
use rogue_tactics::vectors::integer_sqrt;
use rogue_tactics::vectors::ortho_direction_list;
use rogue_tactics::vectors::Vector2Int;
use rogue_tactics::vectors::vector_line;

fn v(x: i32, y: i32) -> Vector2Int {
    Vector2Int::new(x, y)
}

#[test]
fn new_keeps_both_coordinates() {
    let a = Vector2Int::new(3, -4);
    assert_eq!(a.x, 3);
    assert_eq!(a.y, -4);
    assert_eq!(a, Vector2Int { x: 3, y: -4 });
}

#[test]
fn default_is_the_origin() {
    assert_eq!(Vector2Int::default(), v(0, 0));
}

#[test]
fn addition_and_subtraction_work_by_coordinate() {
    assert_eq!(v(1, 2) + v(3, -5), v(4, -3));
    assert_eq!(v(1, 2) - v(3, -5), v(-2, 7));
}

#[test]
fn multiplication_scales_both_coordinates() {
    assert_eq!(v(2, -3) * 4, v(8, -12));
    assert_eq!(v(2, -3) * -1, v(-2, 3));
}

#[test]
fn division_rounds_toward_zero() {
    assert_eq!(v(7, -7) / 2, v(3, -3));
    assert_eq!(v(7, -7) / -2, v(-3, 3));
    assert_eq!(v(5, 0) / 5, v(1, 0));
}

#[test]
fn direction_lists_hold_the_unit_steps() {
    assert_eq!(ortho_direction_list(), vec![v(1, 0), v(-1, 0), v(0, 1), v(0, -1)]);
    assert_eq!(diagonal_direction_list(), vec![v(1, 1), v(-1, 1), v(-1, -1), v(1, -1)]);
}

#[test]
fn line_between_equal_cells_is_empty() {
    assert_eq!(vector_line(v(2, 2), v(2, 2)), Vec::<Vector2Int>::new());
}

#[test]
fn line_to_a_neighbour_has_two_cells() {
    assert_eq!(vector_line(v(2, 2), v(3, 3)), vec![v(2, 2), v(3, 3)]);
}

#[test]
fn line_along_an_axis_visits_every_cell() {
    assert_eq!(vector_line(v(0, 0), v(0, 3)), vec![v(0, 0), v(0, 1), v(0, 2), v(0, 3)]);
    assert_eq!(vector_line(v(3, 1), v(0, 1)), vec![v(3, 1), v(2, 1), v(1, 1), v(0, 1)]);
}

#[test]
fn line_along_a_diagonal_visits_every_cell() {
    assert_eq!(vector_line(v(1, 1), v(-2, 4)), vec![v(1, 1), v(0, 2), v(-1, 3), v(-2, 4)]);
}

#[test]
fn line_rounds_toward_its_source() {
    // four steps up, two to the right: the share of the two is rounded down
    assert_eq!(
        vector_line(v(0, 0), v(2, 4)),
        vec![v(0, 0), v(0, 1), v(1, 2), v(1, 3), v(2, 4)]
    );
    // and two to the left: rounded toward the source, not toward the left
    assert_eq!(
        vector_line(v(3, 0), v(1, 4)),
        vec![v(3, 0), v(3, 1), v(2, 2), v(2, 3), v(1, 4)]
    );
}

#[test]
fn line_has_one_cell_more_than_steps() {
    let line = vector_line(v(-5, 2), v(7, -1));
    assert_eq!(line.len(), 13);
    assert_eq!(line[0], v(-5, 2));
    assert_eq!(line[12], v(7, -1));
}

#[test]
fn line_spans_the_whole_range_of_coordinates() {
    let line = vector_line(v(i32::MAX, i32::MIN), v(i32::MAX - 3, i32::MIN + 3));
    assert_eq!(line.len(), 4);
    assert_eq!(line[3], v(i32::MAX - 3, i32::MIN + 3));
}

#[test]
fn squared_distance_is_exact() {
    assert_eq!(v(0, 0).dist_squared(v(3, 4)), 25);
    assert_eq!(v(-1, -1).dist_squared(v(-1, -1)), 0);
    assert_eq!(
        v(i32::MIN, i32::MIN).dist_squared(v(i32::MAX, i32::MAX)),
        2 * 4294967295u128 * 4294967295u128
    );
}

#[test]
fn distance_in_hundredths_is_rounded_down() {
    assert_eq!(v(0, 0).dist_hundredths(v(3, 4)), 500);
    assert_eq!(v(0, 0).dist_hundredths(v(1, 1)), 141);
    assert_eq!(v(2, 2).dist_hundredths(v(5, 3)), 316);
    assert_eq!(v(4, 4).dist_hundredths(v(4, 4)), 0);
}

#[test]
fn integer_sqrt_rounds_down() {
    assert_eq!(integer_sqrt(0), 0);
    assert_eq!(integer_sqrt(1), 1);
    assert_eq!(integer_sqrt(3), 1);
    assert_eq!(integer_sqrt(4), 2);
    assert_eq!(integer_sqrt(99), 9);
    assert_eq!(integer_sqrt(100), 10);
    assert_eq!(integer_sqrt(20000), 141);
    assert_eq!(integer_sqrt(0xFFFF_FFFF_FFFF_FFFF_FFFF_FFFF), 0xFFFF_FFFF_FFFF);
}

#[test]
fn assignment_forms_add_and_subtract_in_place() {
    let mut a = v(1, 2);
    a += v(3, -5);
    assert_eq!(a, v(4, -3));
    a -= v(10, 10);
    assert_eq!(a, v(-6, -13));
}
