//! The laws of the resolver, each stated over the spec functions that the
//! executable contracts use and proved once and for all.

use vstd::prelude::*;
use crate::dyk::{
    all_recognized, date_key, entry_key, entry_out_key, marked_missing, nom_key, spec_choice,
    spec_content_candidate, spec_date, spec_hook, spec_params, spec_scan, spec_talk_candidate,
    DykEntry, PageStatus,
};
use crate::template::named_lookup;
use crate::text::all_decimal_digits;

verus! {

/// With a purely numeric second unnamed parameter, the date is the first
/// two unnamed parameters joined by a space, and the hook comes from the
/// named parameter `entry` or from the third unnamed parameter -- never
/// from the second.
pub proof fn lemma_numeric_second_param(un: Seq<Seq<char>>, named: Seq<(Seq<char>, Seq<char>)>)
    requires
        un.len() >= 2,
        all_decimal_digits(un[1]),
    ensures
        spec_date(un) == Some(un[0] + " "@ + un[1]),
        spec_hook(un, named) == match named_lookup(named, entry_key()) {
            Some(v) => Some(v),
            None => if un.len() > 2 {
                Some(un[2])
            } else {
                None
            },
        },
{
}

/// With the second unnamed parameter absent or holding a non-digit, the
/// date is the first unnamed parameter alone, and the hook comes from the
/// named parameter `entry` or from the second unnamed parameter.
pub proof fn lemma_nonnumeric_second_param(un: Seq<Seq<char>>, named: Seq<(Seq<char>, Seq<char>)>)
    requires
        un.len() >= 1,
        un.len() >= 2 ==> !all_decimal_digits(un[1]),
    ensures
        spec_date(un) == Some(un[0]),
        spec_hook(un, named) == match named_lookup(named, entry_key()) {
            Some(v) => Some(v),
            None => if un.len() > 1 {
                Some(un[1])
            } else {
                None
            },
        },
{
}

/// The date resolves exactly when the first unnamed parameter is present:
/// with it absent, resolution fails, whatever else the template holds.
pub proof fn lemma_date_requires_first_param(un: Seq<Seq<char>>)
    ensures
        spec_date(un) is None <==> un.len() == 0,
{
}

/// The two candidate titles built for one article never coincide: their
/// prefixes differ in length.
pub proof fn lemma_candidates_distinct(title: Seq<char>)
    ensures
        spec_content_candidate(title) != spec_talk_candidate(title),
{
    reveal_strlit("Template:Did you know nominations/");
    reveal_strlit("Template talk:Did you know/");
    assert(spec_content_candidate(title).len() != spec_talk_candidate(title).len());
}

/// A non-empty response either marks `title` missing in its first entry or
/// somewhere in its tail.
proof fn lemma_marked_missing_step(pages: Seq<PageStatus>, title: Seq<char>)
    requires
        pages.len() > 0,
    ensures
        marked_missing(pages, title) == ((pages[0].title@ == title && pages[0].missing)
            || marked_missing(pages.drop_first(), title)),
{
    let rest = pages.drop_first();
    if marked_missing(pages, title) {
        let i = choose|i: int|
            0 <= i < pages.len() && (#[trigger] pages[i]).title@ == title && pages[i].missing;
        if i > 0 {
            assert(rest[i - 1] == pages[i]);
            assert(marked_missing(rest, title));
        }
    }
    if pages[0].title@ == title && pages[0].missing {
        assert(marked_missing(pages, title));
    }
    if marked_missing(rest, title) {
        let j = choose|j: int|
            0 <= j < rest.len() && (#[trigger] rest[j]).title@ == title && rest[j].missing;
        assert(pages[j + 1] == rest[j]);
        assert(marked_missing(pages, title));
    }
}

/// On a well-formed response -- every entry naming one of the two (distinct)
/// candidates -- the scan succeeds, and each candidate's flag ends up false
/// exactly when some entry marks that candidate missing.
pub proof fn lemma_scan_flags(
    pages: Seq<PageStatus>,
    content: Seq<char>,
    talk: Seq<char>,
    content_exists: bool,
    talk_exists: bool,
)
    requires
        all_recognized(pages, content, talk),
        content != talk,
    ensures
        spec_scan(pages, content, talk, content_exists, talk_exists) == Ok::<
            (bool, bool),
            Seq<char>,
        >(
            (
                content_exists && !marked_missing(pages, content),
                talk_exists && !marked_missing(pages, talk),
            ),
        ),
    decreases pages.len(),
{
    if pages.len() == 0 {
        assert(!marked_missing(pages, content));
        assert(!marked_missing(pages, talk));
    } else {
        let rest = pages.drop_first();
        assert forall|i: int| 0 <= i < rest.len() implies ((#[trigger] rest[i]).title@ == content
            || rest[i].title@ == talk) by {
            assert(rest[i] == pages[i + 1]);
        }
        lemma_marked_missing_step(pages, content);
        lemma_marked_missing_step(pages, talk);
        assert(pages[0].title@ == content || pages[0].title@ == talk);
        if pages[0].title@ == content {
            lemma_scan_flags(rest, content, talk, content_exists && !pages[0].missing, talk_exists);
        } else {
            lemma_scan_flags(rest, content, talk, content_exists, talk_exists && !pages[0].missing);
        }
    }
}

/// The scan fails exactly when some response entry names a title matching
/// neither candidate: an integrity fault arises from drift and from nothing
/// else.
pub proof fn lemma_scan_err_iff_unrecognized(
    pages: Seq<PageStatus>,
    content: Seq<char>,
    talk: Seq<char>,
    content_exists: bool,
    talk_exists: bool,
)
    ensures
        spec_scan(pages, content, talk, content_exists, talk_exists) is Err <==> !all_recognized(
            pages,
            content,
            talk,
        ),
    decreases pages.len(),
{
    if pages.len() == 0 {
    } else {
        let rest = pages.drop_first();
        if pages[0].title@ == content || pages[0].title@ == talk {
            if pages[0].title@ == content {
                lemma_scan_err_iff_unrecognized(
                    rest,
                    content,
                    talk,
                    content_exists && !pages[0].missing,
                    talk_exists,
                );
            } else {
                lemma_scan_err_iff_unrecognized(
                    rest,
                    content,
                    talk,
                    content_exists,
                    talk_exists && !pages[0].missing,
                );
            }
            if !all_recognized(rest, content, talk) {
                let i = choose|i: int|
                    0 <= i < rest.len() && !((#[trigger] rest[i]).title@ == content || rest[i].title@
                        == talk);
                assert(pages[i + 1] == rest[i]);
                assert(!all_recognized(pages, content, talk));
            }
            if !all_recognized(pages, content, talk) {
                let i = choose|i: int|
                    0 <= i < pages.len() && !((#[trigger] pages[i]).title@ == content
                        || pages[i].title@ == talk);
                assert(i > 0);
                assert(rest[i - 1] == pages[i]);
                assert(!all_recognized(rest, content, talk));
            }
        } else {
            assert(!all_recognized(pages, content, talk));
        }
    }
}

/// First-candidate precedence: a well-formed response for an article's two
/// candidates that does not mark the nomination-subpage candidate missing
/// resolves to that candidate, whatever it says of the talk-page candidate.
pub proof fn lemma_first_candidate_precedence(pages: Seq<PageStatus>, title: Seq<char>)
    requires
        all_recognized(pages, spec_content_candidate(title), spec_talk_candidate(title)),
        !marked_missing(pages, spec_content_candidate(title)),
    ensures
        ({
            let content = spec_content_candidate(title);
            let talk = spec_talk_candidate(title);
            spec_scan(pages, content, talk, true, true) matches Ok(flags) && spec_choice(
                content,
                talk,
                flags.0,
                flags.1,
            ) == Some(content)
        }),
{
    lemma_candidates_distinct(title);
    lemma_scan_flags(pages, spec_content_candidate(title), spec_talk_candidate(title), true, true);
}

/// A well-formed response marking both of an article's candidates missing
/// resolves to no nomination page at all, and to no error.
pub proof fn lemma_both_missing_no_nompage(pages: Seq<PageStatus>, title: Seq<char>)
    requires
        all_recognized(pages, spec_content_candidate(title), spec_talk_candidate(title)),
        marked_missing(pages, spec_content_candidate(title)),
        marked_missing(pages, spec_talk_candidate(title)),
    ensures
        ({
            let content = spec_content_candidate(title);
            let talk = spec_talk_candidate(title);
            spec_scan(pages, content, talk, true, true) matches Ok(flags) && spec_choice(
                content,
                talk,
                flags.0,
                flags.1,
            ) is None
        }),
{
    lemma_candidates_distinct(title);
    lemma_scan_flags(pages, spec_content_candidate(title), spec_talk_candidate(title), true, true);
}

/// Projection shape: the date pair always comes first; the hook pair is
/// present exactly when the hook resolved; the nomination pair exactly when
/// the nomination page resolved; one to three pairs in all, in that order.
pub proof fn lemma_projection_shape(e: DykEntry)
    ensures
        spec_params(e) == seq![(date_key(), e.date@)] + (if e.hook is Some {
            seq![(entry_out_key(), e.hook->0@)]
        } else {
            Seq::<(Seq<char>, Seq<char>)>::empty()
        }) + (if e.nompage is Some {
            seq![(nom_key(), e.nompage->0@)]
        } else {
            Seq::<(Seq<char>, Seq<char>)>::empty()
        }),
        1 <= spec_params(e).len() <= 3,
        spec_params(e)[0] == (date_key(), e.date@),
{
    let expected = seq![(date_key(), e.date@)] + (if e.hook is Some {
        seq![(entry_out_key(), e.hook->0@)]
    } else {
        Seq::<(Seq<char>, Seq<char>)>::empty()
    }) + (if e.nompage is Some {
        seq![(nom_key(), e.nompage->0@)]
    } else {
        Seq::<(Seq<char>, Seq<char>)>::empty()
    });
    assert(spec_params(e) =~= expected);
}

} // verus!
