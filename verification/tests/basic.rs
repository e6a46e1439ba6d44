use fixedpoint::fixedpoint;

fn func_with_fixed_point(num: u32, param: &u32) -> u32 {
    150 + (((num as f32 / param.clone() as f32).ceil() as u32) * 100)
}

#[test]
fn basic_tests() {
    assert_eq!(fixedpoint(&func_with_fixed_point, 0, &150, None, None).unwrap(), 450);
    assert_eq!(fixedpoint(&func_with_fixed_point, 0, &150, None, Some(400)).is_err(), true);
    assert_eq!(fixedpoint(&func_with_fixed_point, 0, &10, Some(5), None).is_err(), true);
}
