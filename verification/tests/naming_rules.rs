use labworks::naming::{decimal_chars, derive_name, name_from_url};

#[test]
fn derive_name_from_urls_and_paths() {
    assert_eq!(derive_name("https://x.org/img/cat.jpg?size=2", 3), "3_cat.png");
    assert_eq!(derive_name("C:\\pics\\dog.jpeg", 0), "0_dog.png");
    assert_eq!(derive_name("photo", 12), "12_photo.png");
    assert_eq!(derive_name("https://x.org/", 1), "1_image.png");
    assert_eq!(derive_name("dir/..", 2), "2_image.png");
    assert_eq!(derive_name(".hidden", 4), "4_.hidden.png");
    assert_eq!(derive_name("archive.tar.gz", 5), "5_archive.tar.png");
    assert_eq!(derive_name("a.", 6), "6_a.png");
}

#[test]
fn name_from_url_cases() {
    assert_eq!(name_from_url("https://example.com/", 0), "0_index.html");
    assert_eq!(name_from_url("https://example.com/page", 1), "1_page.html");
    assert_eq!(name_from_url("https://example.com/file.txt?x=1", 2), "2_file.txt");
    assert_eq!(name_from_url("https://example.com/a#frag", 3), "3_a.html");
    assert_eq!(name_from_url("https://example.com/#top", 4), "4_index.html");
}

#[test]
fn decimal_digits() {
    assert_eq!(decimal_chars(0), vec!['0']);
    assert_eq!(decimal_chars(1907).into_iter().collect::<String>(), "1907");
    assert_eq!(decimal_chars(usize::MAX).into_iter().collect::<String>(), usize::MAX.to_string());
}

#[test]
fn numbered_png_names() {
    assert_eq!(labworks::naming::numbered_png_name(0), "0.png");
    assert_eq!(labworks::naming::numbered_png_name(407), "407.png");
}
