use pathtracer::ppm::encode_ppm;
use pathtracer::tracer::Tracer;

fn file_of(header: &str, body: &[u8]) -> Vec<u8> {
    let mut file = header.as_bytes().to_vec();
    file.extend_from_slice(body);
    file
}

#[test]
fn ppm_of_a_traced_four_by_four_image() {
    let mut tracer = Tracer::new(4, 4);
    tracer.trace();
    let file = encode_ppm(tracer.image_buffer(), tracer.width(), tracer.height());
    assert_eq!(&file[..11], b"P6\n4 4\n255\n");
    assert_eq!(file.len(), 11 + 48);
    assert_eq!(&file[11..], tracer.image_buffer());
}

#[test]
fn ppm_of_a_blank_image() {
    let tracer = Tracer::new(2, 1);
    let file = encode_ppm(tracer.image_buffer(), tracer.width(), tracer.height());
    assert_eq!(file, file_of("P6\n2 1\n255\n", &[255; 6]));
}

#[test]
fn ppm_writes_width_before_height() {
    let file = encode_ppm(&[], 640, 480);
    assert_eq!(file, b"P6\n640 480\n255\n".to_vec());
}

#[test]
fn ppm_writes_every_digit() {
    assert_eq!(encode_ppm(&[], 0, 0), b"P6\n0 0\n255\n".to_vec());
    assert_eq!(encode_ppm(&[], 9, 10), b"P6\n9 10\n255\n".to_vec());
    assert_eq!(encode_ppm(&[], 1000, 99), b"P6\n1000 99\n255\n".to_vec());
    assert_eq!(encode_ppm(&[], 1234567890, 101), b"P6\n1234567890 101\n255\n".to_vec());
    let largest = format!("P6\n{} {}\n255\n", usize::MAX, usize::MAX - 1);
    assert_eq!(encode_ppm(&[], usize::MAX, usize::MAX - 1), largest.into_bytes());
}

#[test]
fn ppm_copies_the_bytes_unchanged() {
    let body: Vec<u8> = (0..=255).collect();
    let file = encode_ppm(&body, 16, 16);
    assert_eq!(file, file_of("P6\n16 16\n255\n", &body));
}

#[test]
fn ppm_does_not_relate_the_size_to_the_bytes() {
    let file = encode_ppm(&[10, 13, 32, 0], 7, 5);
    assert_eq!(file, file_of("P6\n7 5\n255\n", &[10, 13, 32, 0]));
}
