#[test]
fn test_bitmasking() {
    let mut n = 0u16;
    n |= 1 << 2;

    println!("{:?}", n);

    println!("is masked {:?}", (n & (1 << 1)) != 0);
    println!("test {:?}", 1 << 9);
}
