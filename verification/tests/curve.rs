use amdgpu_fan::control::{curve_is_valid, ControlCurve, Segment};

/// The order key of a number that is not NaN: an integer that sorts as the
/// number does.
fn order_key(x: f64) -> i64 {
    assert!(!x.is_nan(), "Must not be NaN");
    let bits = (x + 0.0).to_bits() as i64;
    bits ^ ((((bits >> 63) as u64) >> 1) as i64)
}

struct Curve {
    points: Vec<(f64, f64)>,
    keys: ControlCurve,
}

impl Curve {
    fn new(points: Vec<(f64, f64)>) -> Curve {
        let keys = ControlCurve::new(points.iter().map(|p| order_key(p.0)).collect());
        Curve { points, keys }
    }

    fn control(&self, input: f64) -> f64 {
        match self.keys.control(order_key(input)) {
            Segment::Undefined => f64::NAN,
            Segment::Flat(index) => self.points[index].1,
            Segment::Between(low, high) => {
                let (low_x, low_y) = self.points[low];
                let (high_x, high_y) = self.points[high];
                low_y + (high_y - low_y) * (input - low_x) / (high_x - low_x)
            }
        }
    }
}

fn make_test_curve() -> Curve {
    Curve::new(vec![(10.0, 5.0), (30.0, 10.), (50.0, 50.), (100.0, 80.)])
}

#[test]
fn control_curve_clamping() {
    let curve = make_test_curve();
    assert_eq!(curve.control(0.0), 5.0);
    assert_eq!(curve.control(110.0), 80.);
}

#[test]
fn control_curve_exact() {
    let curve = make_test_curve();
    assert_eq!(curve.control(10.0), 5.0);
    assert_eq!(curve.control(30.0), 10.0);
    assert_eq!(curve.control(10.0), 5.0);
}

#[test]
fn control_curve_interpolate() {
    let curve = make_test_curve();
    assert_eq!(curve.control(20.0), 7.5);
    assert_eq!(curve.control(45.0), 40.0);
}

#[test]
fn empty_curve_is_undefined() {
    let curve = ControlCurve::new(Vec::new());
    assert_eq!(curve.control(0), Segment::Undefined);
    assert_eq!(curve.control(i64::MIN), Segment::Undefined);
    assert_eq!(curve.control(i64::MAX), Segment::Undefined);
    assert!(Curve::new(Vec::new()).control(40.0).is_nan());
}

#[test]
fn segments_of_a_sorted_curve() {
    let curve = ControlCurve::new(vec![10, 30, 50, 100]);
    assert_eq!(curve.control(-5), Segment::Flat(0));
    assert_eq!(curve.control(10), Segment::Flat(0));
    assert_eq!(curve.control(11), Segment::Between(0, 1));
    assert_eq!(curve.control(29), Segment::Between(0, 1));
    assert_eq!(curve.control(30), Segment::Between(1, 2));
    assert_eq!(curve.control(31), Segment::Between(1, 2));
    assert_eq!(curve.control(50), Segment::Between(2, 3));
    assert_eq!(curve.control(99), Segment::Between(2, 3));
    assert_eq!(curve.control(100), Segment::Flat(3));
    assert_eq!(curve.control(101), Segment::Flat(3));
    assert_eq!(curve.control(i64::MAX), Segment::Flat(3));
    assert_eq!(curve.control(i64::MIN), Segment::Flat(0));
}

#[test]
fn input_at_an_end_of_the_curve_is_flat() {
    let curve = ControlCurve::new(vec![10, 30]);
    assert_eq!(curve.control(10), Segment::Flat(0));
    assert_eq!(curve.control(30), Segment::Flat(1));
    assert_eq!(curve.control(20), Segment::Between(0, 1));
    let curve = Curve::new(vec![(10.0, 5.0), (30.0, 10.0), (50.0, 50.0)]);
    assert_eq!(curve.control(50.0), 50.0);
    assert_eq!(curve.control(10.0), 5.0);
    assert_eq!(curve.control(1.0e9), 50.0);
    assert_eq!(curve.control(-1.0e9), 5.0);
}

#[test]
fn single_breakpoint_is_flat_everywhere() {
    let curve = ControlCurve::new(vec![7]);
    assert_eq!(curve.control(6), Segment::Flat(0));
    assert_eq!(curve.control(7), Segment::Flat(0));
    assert_eq!(curve.control(8), Segment::Flat(0));
}

#[test]
fn equal_keys_land_on_the_last_of_them() {
    let curve = ControlCurve::new(vec![1, 5, 5, 5, 9]);
    assert_eq!(curve.control(5), Segment::Between(3, 4));
    assert_eq!(curve.control(6), Segment::Between(3, 4));
    assert_eq!(curve.control(4), Segment::Between(0, 1));
    let curve = ControlCurve::new(vec![5, 5, 9, 9]);
    assert_eq!(curve.control(5), Segment::Flat(0));
    assert_eq!(curve.control(9), Segment::Flat(3));
    assert_eq!(curve.control(7), Segment::Between(1, 2));
}

#[test]
fn inner_segment_is_the_number_of_keys_not_above_the_input() {
    let keys: Vec<i64> = vec![-40, -3, 0, 2, 2, 17, 90, 91];
    let curve = ControlCurve::new(keys.clone());
    for input in -50..100 {
        let expected = if input <= keys[0] {
            Segment::Flat(0)
        } else if input >= keys[keys.len() - 1] {
            Segment::Flat(keys.len() - 1)
        } else {
            let rank = keys.iter().filter(|k| **k <= input).count();
            Segment::Between(rank - 1, rank)
        };
        assert_eq!(curve.control(input), expected);
    }
}

#[test]
fn curve_needs_as_many_temperatures_as_fan_speeds_and_one_at_least() {
    assert!(curve_is_valid(1, 1));
    assert!(curve_is_valid(4, 4));
    assert!(curve_is_valid(usize::MAX, usize::MAX));
    assert!(!curve_is_valid(0, 0));
    assert!(!curve_is_valid(0, 1));
    assert!(!curve_is_valid(1, 0));
    assert!(!curve_is_valid(3, 4));
    assert!(!curve_is_valid(4, 3));
}

#[test]
fn curve_out_of_order_still_names_a_segment() {
    let keys: Vec<i64> = vec![50, 10, 100, 30];
    let curve = ControlCurve::new(keys.clone());
    for input in 0..120 {
        match curve.control(input) {
            Segment::Undefined => panic!("a curve with breakpoints is defined"),
            Segment::Flat(index) => assert!(index == 0 || index == keys.len() - 1),
            Segment::Between(low, high) => {
                assert_eq!(low + 1, high);
                assert!(high < keys.len());
            }
        }
    }
}

#[test]
fn order_keys_sort_as_the_numbers_do() {
    let numbers = [
        f64::NEG_INFINITY,
        -1.0e300,
        -30.5,
        -1.0,
        -1.0e-300,
        0.0,
        1.0e-300,
        0.001,
        10.0,
        30.0,
        f64::INFINITY,
    ];
    for pair in numbers.windows(2) {
        assert!(order_key(pair[0]) < order_key(pair[1]));
    }
    assert_eq!(order_key(-0.0), order_key(0.0));
}

#[test]
fn curve_with_negative_and_fractional_breakpoints() {
    let curve = Curve::new(vec![(-20.0, 0.0), (0.5, 0.25), (60.25, 1.0)]);
    assert_eq!(curve.control(-100.0), 0.0);
    assert_eq!(curve.control(-20.0), 0.0);
    assert_eq!(curve.control(-9.75), 0.125);
    assert_eq!(curve.control(0.5), 0.25);
    assert_eq!(curve.control(60.25), 1.0);
    assert_eq!(curve.control(1000.0), 1.0);
}
