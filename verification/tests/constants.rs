use mathrs::EULER_GAMMA_BITS;

#[test]
fn euler_gamma_is_the_nearest_double() {
    let gamma = f64::from_bits(EULER_GAMMA_BITS);
    assert_eq!(
        gamma,
        0.5772156649015328606065120900824024310421593359399235988057672349
    );
    assert_eq!(gamma, 0.5772156649015329);
    assert_eq!(format!("{}", gamma), "0.5772156649015329");
}
