use ng_clp::{
    is_argument, is_flag_or_option, is_invalid, is_separator, next_index, parse, unwrap_argument,
    ParseError,
};

#[test]
fn classification_partition_on_samples() {
    let samples = vec![
        "", "-", "--", "---", "----", "--=", "--=x", "-a", "-g3", "-a=1", "--aa", "--aa=",
        "--aa=bb", "--.", "abc", "a-b", "1", "=x",
    ];
    for s in samples {
        let classes = [is_argument(s), is_separator(s), is_flag_or_option(s)];
        let hits = classes.iter().filter(|c| **c).count();
        if is_invalid(s) {
            assert_eq!(hits, 0, "invalid token {:?} must be in no class", s);
        } else {
            assert_eq!(hits, 1, "token {:?} must be in exactly one class", s);
        }
    }
}

#[test]
fn classification_of_known_tokens() {
    assert!(is_invalid("---"));
    assert!(is_invalid("--="));
    assert!(is_invalid("---x"));
    assert!(is_invalid("--=x"));
    assert!(!is_invalid("--"));
    assert!(!is_invalid("-"));

    assert!(is_argument("-"));
    assert!(is_argument(""));
    assert!(is_argument("word"));
    assert!(!is_argument("-a"));
    assert!(!is_argument("--"));

    assert!(is_separator("--"));
    assert!(!is_separator("-"));
    assert!(!is_separator("---"));

    assert!(is_flag_or_option("-a"));
    assert!(is_flag_or_option("-g3"));
    assert!(is_flag_or_option("--aa"));
    assert!(is_flag_or_option("--aa=bb"));
    assert!(is_flag_or_option("--."));
    assert!(!is_flag_or_option("--"));
    assert!(!is_flag_or_option("-"));
    assert!(!is_flag_or_option("---"));
}

#[test]
fn eat_zero_diagnoses_each_shape() {
    let argv = vec!["-a", "1", "--", "-g3", "--gg=3", "---"];

    let ni = next_index(&argv, 1, 0);
    assert_eq!(
        ni,
        Err(ParseError::InvalidArgument {
            value: "1".to_string()
        })
    );
    let ni = next_index(&argv, 2, 0);
    assert_eq!(
        ni,
        Err(ParseError::UnexpectedSeparator {
            value: "--".to_string()
        })
    );
    // the unknown name is the bare spelling: attached values are stripped
    let ni = next_index(&argv, 3, 0);
    assert_eq!(
        ni,
        Err(ParseError::UnknownFlagOrOption {
            name: "-g".to_string()
        })
    );
    let ni = next_index(&argv, 4, 0);
    assert_eq!(
        ni,
        Err(ParseError::UnknownFlagOrOption {
            name: "--gg".to_string()
        })
    );
    let ni = next_index(&argv, 5, 0);
    assert_eq!(
        ni,
        Err(ParseError::InvalidString {
            s: "---".to_string()
        })
    );
}

#[test]
fn unwrap_argument_present_or_missing() {
    assert_eq!(unwrap_argument(("-o", Some("out.txt"))), Ok("out.txt"));
    // an explicitly empty value is present, not absent
    assert_eq!(unwrap_argument(("--aa", Some(""))), Ok(""));
    assert_eq!(
        unwrap_argument(("--verbose", None)),
        Err(ParseError::OptionWithoutArgument {
            name: "--verbose".to_string()
        })
    );
}

#[test]
fn legal_advancement_reaches_the_end() {
    // the caller's loop: parse, decide an eat count, advance; the index
    // strictly increases until it equals the length
    let argv = vec!["--name=v", "-x", "file", "-o", "out", "--", "-"];
    let eats = vec![2, 1, 1, 2, 1, 1];
    let mut i = 0;
    let mut steps = 0;
    while i < argv.len() {
        let pr = parse(&argv, i).unwrap();
        assert!(!pr.0.is_empty());
        let j = next_index(&argv, i, eats[steps]).unwrap();
        assert!(j > i);
        assert!(j <= argv.len());
        i = j;
        steps += 1;
    }
    assert_eq!(i, argv.len());
    assert_eq!(steps, 6);
}

#[test]
fn detached_value_is_candidate_only() {
    // a flag followed by an argument-shaped token: parse offers the
    // candidate, but only next_index with eat == 2 consumes it
    let argv = vec!["-x", "file"];
    assert_eq!(parse(&argv, 0), Ok(("-x", Some("file"))));
    assert_eq!(next_index(&argv, 0, 1), Ok(1));
    assert_eq!(next_index(&argv, 0, 2), Ok(2));

    // a flag followed by a flag-shaped token: no candidate
    let argv = vec!["-x", "-y"];
    assert_eq!(parse(&argv, 0), Ok(("-x", None)));
    assert_eq!(
        next_index(&argv, 0, 2),
        Err(ParseError::OptionWithoutArgument {
            name: "-x".to_string()
        })
    );
}

#[test]
fn long_option_splits_at_first_eq() {
    let argv = vec!["--key=a=b", "--=x"];
    assert_eq!(parse(&argv, 0), Ok(("--key", Some("a=b"))));
    assert_eq!(
        parse(&argv, 1),
        Err(ParseError::InvalidString {
            s: "--=x".to_string()
        })
    );
}
