use sifis_generate::filters::comment_license;
use sifis_generate::filters::hypens_to_underscores;

#[test]
fn comment_license_test() {
    assert_eq!(
        comment_license("value", "comment_char"),
        "comment_char value",
    );
}

#[test]
fn hypens_to_underscores_test() {
    assert_eq!(hypens_to_underscores("value"), "value");
}

#[test]
fn comment_license_prefixes_every_line() {
    let text = "aaaa bbbb cccc dddd eeee ffff gggg hhhh iiii jjjj kkkk llll mmmm nnnn oooo pppp qqqq rrrr";
    let block = comment_license(text, "#");
    assert!(block.lines().count() > 1);
    for line in block.lines() {
        assert!(line.starts_with("# "));
        assert!(line.len() <= 79);
    }
}

#[test]
fn hypens_to_underscores_replaces_all() {
    assert_eq!(hypens_to_underscores("a-b-c"), "a_b_c");
    assert_eq!(hypens_to_underscores("-"), "_");
    assert_eq!(hypens_to_underscores(""), "");
}
