use fractal_viewer::utils::Changed;
use fractal_viewer::utils::CurrentView;
use fractal_viewer::utils::DigitsCountable;
use fractal_viewer::utils::Julia;
use fractal_viewer::utils::spirv_words;

#[test]
fn changed_set_records_the_new_state() {
    let mut changed = Changed(false);
    changed.set(true, "resize");
    assert!(changed.0);
    changed.set(false, "Just rendered so false.");
    assert!(!changed.0);
}

#[test]
fn count_digits_is_one_more_than_the_digit_count() {
    assert_eq!(0usize.count_digits(), 1);
    assert_eq!(1usize.count_digits(), 2);
    assert_eq!(9usize.count_digits(), 2);
    assert_eq!(10usize.count_digits(), 3);
    assert_eq!(99usize.count_digits(), 3);
    assert_eq!(100usize.count_digits(), 4);
    assert_eq!(12345usize.count_digits(), 6);
    assert_eq!(usize::MAX.count_digits(), 21);
}

#[test]
fn spirv_words_of_nothing_is_nothing() {
    let bytes: Vec<u8> = Vec::new();
    let words = spirv_words(&bytes);
    assert!(words.is_empty());
}

#[test]
fn spirv_words_reads_little_endian() {
    let bytes: Vec<u8> = vec![1, 0, 0, 0, 0, 0, 0, 1];
    let words = spirv_words(&bytes);
    assert_eq!(words, vec![0x0000_0001, 0x0100_0000]);
}

#[test]
fn spirv_words_reassembles_the_magic_number() {
    // The SPIR-V magic number as it sits at the head of a compiled shader.
    let bytes: Vec<u8> = vec![0x03, 0x02, 0x23, 0x07];
    let words = spirv_words(&bytes);
    assert_eq!(words, vec![0x0723_0203]);
}

#[test]
fn current_view_variants_compare() {
    assert_eq!(CurrentView::Single, CurrentView::Single);
    assert_ne!(CurrentView::Single, CurrentView::Double);
}

#[test]
fn julia_uniform_carries_its_flag() {
    let julia = Julia { is_julia: true };
    assert!(julia.is_julia);
    assert_eq!(julia, Julia { is_julia: true });
}
