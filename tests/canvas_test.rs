use rtc::canvas::ppm_content;

#[test]
fn ppm_of_a_small_image() {
    let pixels = vec![(255, 0, 0), (0, 255, 0), (0, 0, 255), (10, 20, 30)];
    assert_eq!(
        "P3\n2 2\n255\n255 0 0 0 255 0\n0 0 255 10 20 30\n",
        ppm_content(2, 2, &pixels)
    );
}

#[test]
fn ppm_rows_break_at_the_width() {
    let pixels = vec![(1, 2, 3); 6];
    assert_eq!(
        "P3\n3 2\n255\n1 2 3 1 2 3 1 2 3\n1 2 3 1 2 3 1 2 3\n",
        ppm_content(3, 2, &pixels)
    );
    let column = vec![(7, 8, 9); 2];
    assert_eq!("P3\n1 2\n255\n7 8 9\n7 8 9\n", ppm_content(1, 2, &column));
}

#[test]
fn ppm_of_an_empty_image() {
    assert_eq!("P3\n0 5\n255\n", ppm_content(0, 5, &Vec::new()));
}
