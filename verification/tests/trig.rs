use typed_geometry::num::Trig;
use typed_geometry::units::Angle;

/// A number of quarter turns, whose sines and cosines are whole numbers.
#[derive(Debug, Clone, Copy, PartialEq)]
struct Quarter(i64);

fn table(values: [i64; 4], turns: i64) -> Quarter {
    Quarter(values[turns.rem_euclid(4) as usize])
}

impl Trig for Quarter {
    fn sin_spec(self) -> Self {
        self.sin()
    }

    fn cos_spec(self) -> Self {
        self.cos()
    }

    fn tan_spec(self) -> Self {
        self.tan()
    }

    fn fast_atan2_spec(y: Self, x: Self) -> Self {
        Self::fast_atan2(y, x)
    }

    fn degrees_to_radians_spec(deg: Self) -> Self {
        Self::degrees_to_radians(deg)
    }

    fn radians_to_degrees_spec(rad: Self) -> Self {
        Self::radians_to_degrees(rad)
    }

    fn sin(self) -> Self {
        table([0, 1, 0, -1], self.0)
    }

    fn cos(self) -> Self {
        table([1, 0, -1, 0], self.0)
    }

    fn tan(self) -> Self {
        Quarter(0)
    }

    fn fast_atan2(y: Self, x: Self) -> Self {
        if y.0 == 0 {
            Quarter(if x.0 >= 0 { 0 } else { 2 })
        } else {
            Quarter(if y.0 > 0 { 1 } else { 3 })
        }
    }

    fn degrees_to_radians(deg: Self) -> Self {
        Quarter(deg.0 / 90)
    }

    fn radians_to_degrees(rad: Self) -> Self {
        Quarter(rad.0 * 90)
    }
}

#[test]
fn angle_from_degrees_goes_through_the_scalar_type() {
    let a = Angle::from_degrees(Quarter(180));
    assert_eq!(a.radians(), Quarter(2));
    assert_eq!(Angle::from_degrees(Quarter(-90)).radians(), Quarter(-1));
    assert_eq!(Angle::from_degrees(Quarter(0)).radians(), Quarter(0));
}

#[test]
fn angle_in_degrees_goes_through_the_scalar_type() {
    assert_eq!(Angle::from_radians(Quarter(2)).degrees(), Quarter(180));
    assert_eq!(Angle::from_radians(Quarter(-3)).degrees(), Quarter(-270));
    assert_eq!(Angle::from_degrees(Quarter(270)).degrees(), Quarter(270));
}
