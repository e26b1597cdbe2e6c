//! Locale resolution for the collation service.
//!
//! The service reads the collation options and the locale's unicode
//! extension keywords, decides the effective collation type, numeric
//! ordering and case-first preference, and writes the decision back to
//! both. Whether a collation type is backed by collation data is decided
//! by the locale provider outside this logic, so that verdict comes in
//! as an argument and the resolution holds for every verdict.

use vstd::prelude::*;
use crate::interner::bytes_eq;

verus! {

/// The collation-relevant unicode extension keywords of a locale, as
/// plain optional byte strings: `co` (collation type), `kn` (numeric
/// ordering) and `kf` (case first).
#[derive(Debug, PartialEq, Eq)]
pub struct CollationKeywords {
    /// The `co` keyword.
    pub co: Option<Vec<u8>>,
    /// The `kn` keyword.
    pub kn: Option<Vec<u8>>,
    /// The `kf` keyword.
    pub kf: Option<Vec<u8>>,
}

/// Which casing sorts first.
#[derive(Debug, Clone, Copy, PartialEq, Eq, Structural)]
pub enum CaseFirst {
    /// Upper case sorts first.
    Upper,
    /// Lower case sorts first.
    Lower,
    /// No casing preference.
    False,
}

/// The collation options of one resolution request.
#[derive(Debug, PartialEq, Eq)]
pub struct CollatorLocaleOptions {
    /// The requested collation type.
    pub collation: Option<Vec<u8>>,
    /// The requested numeric ordering.
    pub numeric: Option<bool>,
    /// The requested case-first preference.
    pub case_first: Option<CaseFirst>,
}

/// The byte string `search`.
pub open spec fn search_text() -> Seq<u8> {
    seq![115u8, 101u8, 97u8, 114u8, 99u8, 104u8]
}

/// The byte string `true`.
pub open spec fn true_text() -> Seq<u8> {
    seq![116u8, 114u8, 117u8, 101u8]
}

/// The byte string `false`.
pub open spec fn false_text() -> Seq<u8> {
    seq![102u8, 97u8, 108u8, 115u8, 101u8]
}

/// The byte string `upper`.
pub open spec fn upper_text() -> Seq<u8> {
    seq![117u8, 112u8, 112u8, 101u8, 114u8]
}

/// The byte string `lower`.
pub open spec fn lower_text() -> Seq<u8> {
    seq![108u8, 111u8, 119u8, 101u8, 114u8]
}

/// An optional byte string, by its contents.
pub open spec fn opt_view(o: Option<Vec<u8>>) -> Option<Seq<u8>> {
    match o {
        Some(v) => Some(v@),
        None => None,
    }
}

/// The effective collation type: the requested type when the provider
/// backs it, else the locale's own keyword when the provider backs that,
/// and never the `search` type, which is selected through the usage
/// option instead.
pub open spec fn chosen_collation(
    keywords: CollationKeywords,
    options: CollatorLocaleOptions,
    option_collation_supported: bool,
    locale_collation_supported: bool,
) -> Option<Seq<u8>> {
    let requested = if options.collation is Some && option_collation_supported {
        opt_view(options.collation)
    } else {
        None
    };
    let fallback = if keywords.co is Some && locale_collation_supported {
        opt_view(keywords.co)
    } else {
        None
    };
    let candidate = if requested is Some {
        requested
    } else {
        fallback
    };
    match candidate {
        Some(v) => if v == search_text() {
            None
        } else {
            Some(v)
        },
        None => None,
    }
}

/// The effective numeric ordering: the requested one, else the locale's
/// `kn` keyword read as a boolean, where any value but `true` reads as
/// false.
pub open spec fn chosen_numeric(keywords: CollationKeywords, options: CollatorLocaleOptions)
    -> Option<bool> {
    match options.numeric {
        Some(b) => Some(b),
        None => match keywords.kn {
            Some(v) => Some(v@ == true_text()),
            None => None,
        },
    }
}

/// The effective case-first preference: the requested one, else the
/// locale's `kf` keyword, where any value but `upper` and `lower` reads
/// as no preference.
pub open spec fn chosen_case_first(keywords: CollationKeywords, options: CollatorLocaleOptions)
    -> Option<CaseFirst> {
    match options.case_first {
        Some(cf) => Some(cf),
        None => match keywords.kf {
            Some(v) => if v@ == upper_text() {
                Some(CaseFirst::Upper)
            } else if v@ == lower_text() {
                Some(CaseFirst::Lower)
            } else {
                Some(CaseFirst::False)
            },
            None => None,
        },
    }
}

/// The textual form of a resolved case-first preference.
pub open spec fn case_first_text(cf: CaseFirst) -> Seq<u8> {
    match cf {
        CaseFirst::Upper => upper_text(),
        CaseFirst::Lower => lower_text(),
        CaseFirst::False => false_text(),
    }
}

/// Copies a byte string.
fn copy_bytes(v: &Vec<u8>) -> (r: Vec<u8>)
    ensures
        r@ == v@,
{
    let mut out: Vec<u8> = Vec::new();
    let n = v.len();
    let mut i: usize = 0;
    while i < n
        invariant
            n == v@.len(),
            i <= n,
            out@ == v@.take(i as int),
        decreases n - i,
    {
        out.push(v[i]);
        proof {
            assert(out@ =~= v@.take(i as int + 1));
        }
        i = i + 1;
    }
    proof {
        assert(out@ =~= v@);
    }
    out
}

/// The collation service.
#[derive(Debug, Clone, Copy)]
pub struct Collator {}

impl Collator {
    /// Resolves the collation options against a locale: decides the
    /// effective collation type, numeric ordering and case-first
    /// preference, clears the locale's unicode extension keywords, and
    /// writes the decision back into both. Whether the provider backs a
    /// collation type arrives as the two verdict arguments.
    pub fn resolve(
        keywords: CollationKeywords,
        options: CollatorLocaleOptions,
        option_collation_supported: bool,
        locale_collation_supported: bool,
    ) -> (r: (CollationKeywords, CollatorLocaleOptions))
        ensures
            ({
                let chosen = chosen_collation(
                    keywords,
                    options,
                    option_collation_supported,
                    locale_collation_supported,
                );
                let numeric = chosen_numeric(keywords, options);
                let case_first = chosen_case_first(keywords, options);
                &&& opt_view(r.1.collation) == chosen
                &&& r.1.numeric == numeric
                &&& r.1.case_first == case_first
                &&& opt_view(r.0.co) == chosen
                &&& opt_view(r.0.kn) == (match numeric {
                    Some(true) => Some(true_text()),
                    Some(false) => Some(false_text()),
                    None => None::<Seq<u8>>,
                })
                &&& opt_view(r.0.kf) == (match case_first {
                    Some(cf) => Some(case_first_text(cf)),
                    None => None::<Seq<u8>>,
                })
            }),
    {
        let CollationKeywords { co, kn, kf } = keywords;
        let CollatorLocaleOptions { collation, numeric, case_first } = options;

        let requested: Option<Vec<u8>> = if option_collation_supported {
            collation
        } else {
            None
        };
        let fallback: Option<Vec<u8>> = if locale_collation_supported {
            co
        } else {
            None
        };
        let candidate: Option<Vec<u8>> = match requested {
            Some(v) => Some(v),
            None => fallback,
        };
        let search: Vec<u8> = vec![115u8, 101u8, 97u8, 114u8, 99u8, 104u8];
        proof {
            assert(search@ =~= search_text());
        }
        let chosen: Option<Vec<u8>> = match candidate {
            Some(v) => {
                if bytes_eq(&v, &search) {
                    None
                } else {
                    Some(v)
                }
            },
            None => None,
        };

        let true_bytes: Vec<u8> = vec![116u8, 114u8, 117u8, 101u8];
        proof {
            assert(true_bytes@ =~= true_text());
        }
        let resolved_numeric: Option<bool> = match numeric {
            Some(b) => Some(b),
            None => match &kn {
                Some(v) => Some(bytes_eq(v, &true_bytes)),
                None => None,
            },
        };

        let upper_bytes: Vec<u8> = vec![117u8, 112u8, 112u8, 101u8, 114u8];
        let lower_bytes: Vec<u8> = vec![108u8, 111u8, 119u8, 101u8, 114u8];
        proof {
            assert(upper_bytes@ =~= upper_text());
            assert(lower_bytes@ =~= lower_text());
        }
        let resolved_case_first: Option<CaseFirst> = match case_first {
            Some(cf) => Some(cf),
            None => match &kf {
                Some(v) => {
                    if bytes_eq(v, &upper_bytes) {
                        Some(CaseFirst::Upper)
                    } else if bytes_eq(v, &lower_bytes) {
                        Some(CaseFirst::Lower)
                    } else {
                        Some(CaseFirst::False)
                    }
                },
                None => None,
            },
        };

        // the keywords are cleared, then set from the resolution
        let new_co: Option<Vec<u8>> = match &chosen {
            Some(v) => Some(copy_bytes(v)),
            None => None,
        };
        let new_kn: Option<Vec<u8>> = match resolved_numeric {
            Some(true) => {
                let v: Vec<u8> = vec![116u8, 114u8, 117u8, 101u8];
                proof {
                    assert(v@ =~= true_text());
                }
                Some(v)
            },
            Some(false) => {
                let v: Vec<u8> = vec![102u8, 97u8, 108u8, 115u8, 101u8];
                proof {
                    assert(v@ =~= false_text());
                }
                Some(v)
            },
            None => None,
        };
        let new_kf: Option<Vec<u8>> = match resolved_case_first {
            Some(CaseFirst::Upper) => {
                let v: Vec<u8> = vec![117u8, 112u8, 112u8, 101u8, 114u8];
                proof {
                    assert(v@ =~= upper_text());
                }
                Some(v)
            },
            Some(CaseFirst::Lower) => {
                let v: Vec<u8> = vec![108u8, 111u8, 119u8, 101u8, 114u8];
                proof {
                    assert(v@ =~= lower_text());
                }
                Some(v)
            },
            Some(CaseFirst::False) => {
                let v: Vec<u8> = vec![102u8, 97u8, 108u8, 115u8, 101u8];
                proof {
                    assert(v@ =~= false_text());
                }
                Some(v)
            },
            None => None,
        };
        (
            CollationKeywords { co: new_co, kn: new_kn, kf: new_kf },
            CollatorLocaleOptions {
                collation: chosen,
                numeric: resolved_numeric,
                case_first: resolved_case_first,
            },
        )
    }
}

} // verus!
