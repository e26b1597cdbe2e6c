//! Tests for collation locale resolution.

use boa_parser::collator::{CaseFirst, CollationKeywords, Collator, CollatorLocaleOptions};

fn kw(co: Option<&str>, kn: Option<&str>, kf: Option<&str>) -> CollationKeywords {
    CollationKeywords {
        co: co.map(|s| s.as_bytes().to_vec()),
        kn: kn.map(|s| s.as_bytes().to_vec()),
        kf: kf.map(|s| s.as_bytes().to_vec()),
    }
}

#[test]
fn collator_resolve_prefers_supported_requested_collation() {
    let options = CollatorLocaleOptions {
        collation: Some("emoji".as_bytes().to_vec()),
        numeric: None,
        case_first: None,
    };
    let (keywords, options) = Collator::resolve(kw(Some("phonebk"), None, None), options, true, true);
    assert_eq!(options.collation, Some("emoji".as_bytes().to_vec()));
    assert_eq!(keywords.co, Some("emoji".as_bytes().to_vec()));
    assert_eq!(options.numeric, None);
    assert_eq!(keywords.kn, None);
}

#[test]
fn collator_resolve_falls_back_to_locale_keyword() {
    let options = CollatorLocaleOptions {
        collation: Some("bogus".as_bytes().to_vec()),
        numeric: None,
        case_first: None,
    };
    // the requested type has no collation data, the locale's does
    let (keywords, options) =
        Collator::resolve(kw(Some("phonebk"), None, None), options, false, true);
    assert_eq!(options.collation, Some("phonebk".as_bytes().to_vec()));
    assert_eq!(keywords.co, Some("phonebk".as_bytes().to_vec()));
}

#[test]
fn collator_resolve_never_selects_search() {
    let options = CollatorLocaleOptions {
        collation: Some("search".as_bytes().to_vec()),
        numeric: None,
        case_first: None,
    };
    let (keywords, options) = Collator::resolve(kw(None, None, None), options, true, true);
    assert_eq!(options.collation, None);
    assert_eq!(keywords.co, None);
}

#[test]
fn collator_resolve_reads_numeric_and_case_first_keywords() {
    let options = CollatorLocaleOptions { collation: None, numeric: None, case_first: None };
    let (keywords, options) =
        Collator::resolve(kw(None, Some("true"), Some("upper")), options, true, true);
    assert_eq!(options.numeric, Some(true));
    assert_eq!(keywords.kn, Some("true".as_bytes().to_vec()));
    assert_eq!(options.case_first, Some(CaseFirst::Upper));
    assert_eq!(keywords.kf, Some("upper".as_bytes().to_vec()));

    // any other keyword value reads as false / no preference
    let options = CollatorLocaleOptions { collation: None, numeric: None, case_first: None };
    let (keywords, options) =
        Collator::resolve(kw(None, Some("yes"), Some("maybe")), options, true, true);
    assert_eq!(options.numeric, Some(false));
    assert_eq!(keywords.kn, Some("false".as_bytes().to_vec()));
    assert_eq!(options.case_first, Some(CaseFirst::False));
    assert_eq!(keywords.kf, Some("false".as_bytes().to_vec()));
}

#[test]
fn collator_resolve_requested_options_override_keywords() {
    let options = CollatorLocaleOptions {
        collation: None,
        numeric: Some(false),
        case_first: Some(CaseFirst::Lower),
    };
    let (keywords, options) =
        Collator::resolve(kw(None, Some("true"), Some("upper")), options, true, true);
    assert_eq!(options.numeric, Some(false));
    assert_eq!(keywords.kn, Some("false".as_bytes().to_vec()));
    assert_eq!(options.case_first, Some(CaseFirst::Lower));
    assert_eq!(keywords.kf, Some("lower".as_bytes().to_vec()));
}
