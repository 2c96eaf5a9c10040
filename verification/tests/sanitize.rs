use qrt_rust_utils::sanitize::{
    sanitize, sanitize_patterns_compile, sanitize_with_options, try_sanitize,
    try_sanitize_with_options, SanitizeOption,
};

static NAMES: &'static [&'static str] = &[
    "the quick brown fox jumped over the lazy dog",
    "résumé",
    "hello\u{0000}world",
    "hello\nworld",
    "semi;colon.js",
    ";leading-semi.js",
    "slash\\.js",
    "slash/.js",
    "col:on.js",
    "star*.js",
    "question?.js",
    "quote\".js",
    "singlequote'.js",
    "brack<e>ts.js",
    "p|pes.js",
    "plus+.js",
    "'five and six<seven'.js",
    " space at front",
    "space at end ",
    ".period",
    "period.",
    "relative/path/to/some/dir",
    "/abs/path/to/some/dir",
    "~/.\u{0000}notssh/authorized_keys",
    "",
    "h?w",
    "h/w",
    "h*w",
    ".",
    "..",
    "./",
    "../",
    "/..",
    "/../",
    "*.|.",
    "./",
    "./foobar",
    "../foobar",
    "../../foobar",
    "./././foobar",
    "|*.what",
    "LPT9.asdf",
];

static NAMES_CLEANED: &'static [&'static str] = &[
    "the quick brown fox jumped over the lazy dog",
    "résumé",
    "helloworld",
    "helloworld",
    "semi;colon.js",
    ";leading-semi.js",
    "slash.js",
    "slash.js",
    "colon.js",
    "star.js",
    "question.js",
    "quote.js",
    "singlequote'.js",
    "brackets.js",
    "ppes.js",
    "plus+.js",
    "'five and sixseven'.js",
    " space at front",
    "space at end ",
    ".period",
    "period.",
    "relativepathtosomedir",
    "abspathtosomedir",
    "~.notsshauthorized_keys",
    "",
    "hw",
    "hw",
    "hw",
    "",
    "",
    "",
    "",
    "",
    "",
    "",
    "",
    ".foobar",
    "..foobar",
    "....foobar",
    "...foobar",
    ".what",
    "",
];

#[test]
fn sanitize_it_works() {
    let options = SanitizeOption {
        windows: true,
        replacement: "",
    };

    for (idx, name) in NAMES.iter().enumerate() {
        assert_eq!(
            sanitize_with_options(name, options.clone()),
            NAMES_CLEANED[idx]
        );
    }
}

#[test]
fn sanitize_replaces_with_underscore_by_default() {
    assert_eq!(sanitize("a/b:c"), "a_b_c");
    assert_eq!(sanitize(".."), "_");
    assert_eq!(sanitize("plain.txt"), "plain.txt");
}

#[test]
fn sanitize_keeps_reserved_device_names_off_windows() {
    let options = SanitizeOption {
        windows: false,
        replacement: "_",
    };
    assert_eq!(sanitize_with_options("con.txt", options.clone()), "con.txt");
    assert_eq!(sanitize_with_options("a\u{0085}b", options.clone()), "a_b");
    let windows = SanitizeOption {
        windows: true,
        replacement: "_",
    };
    assert_eq!(sanitize_with_options("CON.txt", windows.clone()), "_");
    assert_eq!(sanitize_with_options("com1", windows.clone()), "_");
    assert_eq!(sanitize_with_options("console", windows), "console");
}

#[test]
fn checked_sanitize_agrees_with_sanitize() {
    assert!(sanitize_patterns_compile(true));
    assert!(sanitize_patterns_compile(false));
    assert_eq!(try_sanitize("a|b"), Some(sanitize("a|b")));
    let options = SanitizeOption { windows: true, replacement: "-" };
    assert_eq!(try_sanitize_with_options("nul", options.clone()), Some("-".to_string()));
    assert_eq!(try_sanitize_with_options("x?y", options), Some("x-y".to_string()));
}
