//! The DYK resolver: date and hook disambiguation, nomination-page
//! resolution, and projection of the resolved record into key/value pairs.
//!
//! Resolution runs in two steps. [`parse_dyk_template`] settles the date and
//! the hook and, when the template names its nomination page, the whole
//! record; otherwise it hands back a [`PendingDyk`] carrying the two
//! candidate titles to probe. The caller performs the existence probe and
//! feeds the per-title outcome to [`PendingDyk::finish`], which picks the
//! nomination page. The probe is thereby the caller's only duty, and it is
//! owed exactly once per resolution, and only when the template names no
//! nomination page itself.

use vstd::prelude::*;
use crate::template::{named_lookup, Template};
use crate::text::{all_decimal_digits, str_eq, str_is_decimal_digits};
use vstd::string::{StrSliceExecFns, StringExecFns};

verus! {

/// The name of the named parameter holding the hook text.
pub open spec fn entry_key() -> Seq<char> {
    "entry"@
}

/// The name of the named parameter holding an explicit nomination-page
/// title.
pub open spec fn nompage_key() -> Seq<char> {
    "nompage"@
}

/// The title prefix of the nomination-subpage candidate.
pub open spec fn content_nom_prefix() -> Seq<char> {
    "Template:Did you know nominations/"@
}

/// The title prefix of the talk-page candidate.
pub open spec fn talk_nom_prefix() -> Seq<char> {
    "Template talk:Did you know/"@
}

/// The second unnamed parameter is present and purely decimal digits, so it
/// continues the date rather than holding the hook.
pub open spec fn second_param_is_numeric(un: Seq<Seq<char>>) -> bool {
    un.len() >= 2 && all_decimal_digits(un[1])
}

/// The resolved date: the first two unnamed parameters joined by a space
/// when the second is numeric, the first alone otherwise, nothing when the
/// first is absent.
pub open spec fn spec_date(un: Seq<Seq<char>>) -> Option<Seq<char>> {
    if second_param_is_numeric(un) {
        Some(un[0] + " "@ + un[1])
    } else if un.len() >= 1 {
        Some(un[0])
    } else {
        None
    }
}

/// The resolved hook: the named parameter `entry` when bound, else the
/// unnamed parameter after the date (index 2 when the second unnamed
/// parameter continues the date, index 1 otherwise), else nothing.
pub open spec fn spec_hook(un: Seq<Seq<char>>, named: Seq<(Seq<char>, Seq<char>)>) -> Option<
    Seq<char>,
> {
    match named_lookup(named, entry_key()) {
        Some(v) => Some(v),
        None => {
            let idx: int = if second_param_is_numeric(un) {
                2
            } else {
                1
            };
            if idx < un.len() {
                Some(un[idx])
            } else {
                None
            }
        },
    }
}

/// The nomination-subpage candidate title for an article.
pub open spec fn spec_content_candidate(title: Seq<char>) -> Seq<char> {
    content_nom_prefix() + title
}

/// The talk-page candidate title for an article.
pub open spec fn spec_talk_candidate(title: Seq<char>) -> Seq<char> {
    talk_nom_prefix() + title
}

/// A resolved "Did You Know" record.
pub struct DykEntry {
    pub date: String,
    pub hook: Option<String>,
    pub nompage: Option<String>,
}

/// The existence-probe outcome for one title: `missing` is true only when
/// the backing system explicitly marked the page as absent.
#[derive(Debug)]
pub struct PageStatus {
    pub title: String,
    pub missing: bool,
}

/// Why a resolution failed.
#[derive(Debug)]
pub enum DykError {
    /// The date's first required token (the first unnamed parameter) is
    /// absent from the template.
    MissingParameter { article_title: String },
    /// The probe response named a title matching neither requested
    /// candidate: a drift between request and response that cannot be
    /// safely ignored, surfaced with its full context.
    IntegrityFault {
        unexpected_title: String,
        requested_content: String,
        requested_talk: String,
        response: Vec<PageStatus>,
    },
}

/// A record whose nomination page is still unresolved: date and hook are
/// settled, and the two candidate titles to probe are fixed.
pub struct PendingDyk {
    pub date: String,
    pub hook: Option<String>,
    pub content_candidate: String,
    pub talk_candidate: String,
}

/// The outcome of examining a template: either the record is complete, or
/// one existence probe over the two candidate titles is still owed.
pub enum DykResolution {
    Resolved(DykEntry),
    NeedsQuery(PendingDyk),
}

/// One pass over the probe response, carrying for each candidate whether it
/// is still regarded as existing. Each candidate's flag is cleared only by
/// an entry bearing that candidate's own title and marked missing; a title
/// matching neither candidate stops the scan and is the value of the error.
pub open spec fn spec_scan(
    pages: Seq<PageStatus>,
    content: Seq<char>,
    talk: Seq<char>,
    content_exists: bool,
    talk_exists: bool,
) -> Result<(bool, bool), Seq<char>>
    decreases pages.len(),
{
    if pages.len() == 0 {
        Ok((content_exists, talk_exists))
    } else if pages[0].title@ == content {
        spec_scan(
            pages.drop_first(),
            content,
            talk,
            content_exists && !pages[0].missing,
            talk_exists,
        )
    } else if pages[0].title@ == talk {
        spec_scan(pages.drop_first(), content, talk, content_exists, talk_exists && !pages[0].missing)
    } else {
        Err(pages[0].title@)
    }
}

/// First-candidate precedence: the nomination-subpage form when it exists,
/// else the talk-page form when it exists, else nothing.
pub open spec fn spec_choice(
    content: Seq<char>,
    talk: Seq<char>,
    content_exists: bool,
    talk_exists: bool,
) -> Option<Seq<char>> {
    if content_exists {
        Some(content)
    } else if talk_exists {
        Some(talk)
    } else {
        None
    }
}

/// Some response entry marks `title` as missing.
pub open spec fn marked_missing(pages: Seq<PageStatus>, title: Seq<char>) -> bool {
    exists|i: int| 0 <= i < pages.len() && (#[trigger] pages[i]).title@ == title && pages[i].missing
}

/// Every response entry names one of the two candidates.
pub open spec fn all_recognized(pages: Seq<PageStatus>, content: Seq<char>, talk: Seq<char>) -> bool {
    forall|i: int|
        0 <= i < pages.len() ==> ((#[trigger] pages[i]).title@ == content || pages[i].title@ == talk)
}

/// The output key for the date field, under the fixed `dyk` prefix.
pub open spec fn date_key() -> Seq<char> {
    "dyk.date"@
}

/// The output key for the hook field, under the fixed `dyk` prefix.
pub open spec fn entry_out_key() -> Seq<char> {
    "dyk.entry"@
}

/// The output key for the nomination-page field, under the fixed `dyk`
/// prefix.
pub open spec fn nom_key() -> Seq<char> {
    "dyk.nom"@
}

/// The projection of a resolved record: the date pair first, then the hook
/// pair exactly when the hook resolved, then the nomination pair exactly
/// when the nomination page resolved.
pub open spec fn spec_params(e: DykEntry) -> Seq<(Seq<char>, Seq<char>)> {
    let with_date = seq![(date_key(), e.date@)];
    let with_hook = if e.hook is Some {
        with_date.push((entry_out_key(), e.hook->0@))
    } else {
        with_date
    };
    if e.nompage is Some {
        with_hook.push((nom_key(), e.nompage->0@))
    } else {
        with_hook
    }
}

/// Join two date tokens with a single space.
fn join_with_space(a: &str, b: &str) -> (r: String)
    ensures
        r@ == a@ + " "@ + b@,
{
    String::from_str(a).concat(" ").concat(b)
}

/// The nomination-subpage candidate title for `article_title`.
pub fn content_candidate(article_title: &str) -> (r: String)
    ensures
        r@ == spec_content_candidate(article_title@),
{
    String::from_str("Template:Did you know nominations/").concat(article_title)
}

/// The talk-page candidate title for `article_title`.
pub fn talk_candidate(article_title: &str) -> (r: String)
    ensures
        r@ == spec_talk_candidate(article_title@),
{
    String::from_str("Template talk:Did you know/").concat(article_title)
}

/// Extract the date and the hook from `template` and settle the nomination
/// page as far as the template itself decides it.
///
/// When the template binds `nompage`, the record is complete and no probe is
/// owed; otherwise the returned [`PendingDyk`] fixes the two candidate
/// titles for the one probe that [`PendingDyk::finish`] consumes. The call
/// fails exactly when the first unnamed parameter is absent.
pub fn parse_dyk_template(article_title: &str, template: &Template) -> (r: Result<
    DykResolution,
    DykError,
>)
    ensures
        match r {
            Ok(res) => {
                &&& spec_date(template.unnamed_view()) is Some
                &&& match res {
                    DykResolution::Resolved(e) => {
                        &&& named_lookup(template.named_view(), nompage_key()) is Some
                        &&& e.nompage.deep_view() == named_lookup(
                            template.named_view(),
                            nompage_key(),
                        )
                        &&& e.date@ == spec_date(template.unnamed_view())->0
                        &&& e.hook.deep_view() == spec_hook(
                            template.unnamed_view(),
                            template.named_view(),
                        )
                    },
                    DykResolution::NeedsQuery(p) => {
                        &&& named_lookup(template.named_view(), nompage_key()) is None
                        &&& p.date@ == spec_date(template.unnamed_view())->0
                        &&& p.hook.deep_view() == spec_hook(
                            template.unnamed_view(),
                            template.named_view(),
                        )
                        &&& p.content_candidate@ == spec_content_candidate(article_title@)
                        &&& p.talk_candidate@ == spec_talk_candidate(article_title@)
                    },
                }
            },
            Err(e) => {
                &&& spec_date(template.unnamed_view()) is None
                &&& e matches DykError::MissingParameter { article_title: t } && t@
                    == article_title@
            },
        },
{
    let param_2_is_numeric = match template.get_unnamed(1) {
        Some(p2) => str_is_decimal_digits(p2.as_str()),
        None => false,
    };
    let date: String = if param_2_is_numeric {
        join_with_space(template.unnamed[0].as_str(), template.unnamed[1].as_str())
    } else {
        match template.get_unnamed(0) {
            Some(first) => first.clone(),
            None => {
                return Err(
                    DykError::MissingParameter {
                        article_title: String::from_str(article_title),
                    },
                );
            },
        }
    };
    let hook: Option<String> = match template.get_named("entry") {
        Some(v) => Some(v.clone()),
        None => {
            let idx: usize = if param_2_is_numeric {
                2
            } else {
                1
            };
            match template.get_unnamed(idx) {
                Some(v) => Some(v.clone()),
                None => None,
            }
        },
    };
    match template.get_named("nompage") {
        Some(p) => Ok(
            DykResolution::Resolved(DykEntry { date, hook, nompage: Some(p.clone()) }),
        ),
        None => Ok(
            DykResolution::NeedsQuery(
                PendingDyk {
                    date,
                    hook,
                    content_candidate: content_candidate(article_title),
                    talk_candidate: talk_candidate(article_title),
                },
            ),
        ),
    }
}

impl DykEntry {
    /// Flatten the record into ordered key/value pairs under the fixed
    /// `dyk` prefix: `dyk.date` always and first, `dyk.entry` exactly when
    /// the hook resolved, `dyk.nom` exactly when the nomination page
    /// resolved.
    pub fn to_params(self) -> (r: Vec<(String, String)>)
        ensures
            r.deep_view() == spec_params(self),
    {
        let mut out: Vec<(String, String)> = Vec::new();
        out.push((String::from_str("dyk.date"), self.date));
        if let Some(h) = self.hook {
            out.push((String::from_str("dyk.entry"), h));
        }
        if let Some(n) = self.nompage {
            out.push((String::from_str("dyk.nom"), n));
        }
        proof {
            assert(out.deep_view() =~= spec_params(self));
        }
        out
    }
}

impl DykError {
    /// A diagnostic line for the error, naming what went wrong and on what.
    pub fn message(&self) -> (r: String)
        ensures
            match self {
                DykError::MissingParameter { article_title } => r@ == article_title@
                    + ": no first unnamed parameter!"@,
                DykError::IntegrityFault { unexpected_title, .. } => r@
                    == "unrecognized title in probe response: "@ + unexpected_title@,
            },
    {
        match self {
            DykError::MissingParameter { article_title } => String::from_str(
                article_title.as_str(),
            ).concat(": no first unnamed parameter!"),
            DykError::IntegrityFault { unexpected_title, .. } => String::from_str(
                "unrecognized title in probe response: ",
            ).concat(unexpected_title.as_str()),
        }
    }
}

impl PendingDyk {
    /// Complete the record from the probe response, one status per reported
    /// title. The nomination-subpage candidate is preferred when it exists,
    /// then the talk-page candidate; when both are marked missing the
    /// nomination page is absent. A reported title matching neither
    /// candidate is an integrity fault.
    pub fn finish(self, pages: Vec<PageStatus>) -> (r: Result<DykEntry, DykError>)
        ensures
            match r {
                Ok(e) => {
                    &&& spec_scan(
                        pages@,
                        self.content_candidate@,
                        self.talk_candidate@,
                        true,
                        true,
                    ) matches Ok(flags)
                    &&& e.nompage.deep_view() == spec_choice(
                        self.content_candidate@,
                        self.talk_candidate@,
                        flags.0,
                        flags.1,
                    )
                    &&& e.date@ == self.date@
                    &&& e.hook.deep_view() == self.hook.deep_view()
                },
                Err(e) => {
                    &&& spec_scan(
                        pages@,
                        self.content_candidate@,
                        self.talk_candidate@,
                        true,
                        true,
                    ) is Err
                    &&& e matches DykError::IntegrityFault {
                        unexpected_title,
                        requested_content,
                        requested_talk,
                        response,
                    } && unexpected_title@ == spec_scan(
                        pages@,
                        self.content_candidate@,
                        self.talk_candidate@,
                        true,
                        true,
                    )->Err_0 && requested_content@ == self.content_candidate@ && requested_talk@
                        == self.talk_candidate@ && response@ == pages@
                },
            },
    {
        let ghost c = self.content_candidate@;
        let ghost t = self.talk_candidate@;
        let mut content_exists = true;
        let mut talk_exists = true;
        let mut i: usize = 0;
        proof {
            assert(pages@.skip(0) =~= pages@);
        }
        while i < pages.len()
            invariant
                i <= pages.len(),
                c == self.content_candidate@,
                t == self.talk_candidate@,
                spec_scan(pages@, c, t, true, true) == spec_scan(
                    pages@.skip(i as int),
                    c,
                    t,
                    content_exists,
                    talk_exists,
                ),
            decreases pages.len() - i,
        {
            proof {
                assert(pages@.skip(i as int)[0] == pages@[i as int]);
                assert(pages@.skip(i as int).drop_first() =~= pages@.skip(i as int + 1));
            }
            let missing = pages[i].missing;
            if str_eq(pages[i].title.as_str(), self.content_candidate.as_str()) {
                if missing {
                    content_exists = false;
                }
            } else if str_eq(pages[i].title.as_str(), self.talk_candidate.as_str()) {
                if missing {
                    talk_exists = false;
                }
            } else {
                let unexpected_title = pages[i].title.clone();
                return Err(
                    DykError::IntegrityFault {
                        unexpected_title,
                        requested_content: self.content_candidate,
                        requested_talk: self.talk_candidate,
                        response: pages,
                    },
                );
            }
            i = i + 1;
        }
        proof {
            assert(pages@.skip(pages@.len() as int) =~= Seq::<PageStatus>::empty());
        }
        let nompage: Option<String> = if content_exists {
            Some(self.content_candidate)
        } else if talk_exists {
            Some(self.talk_candidate)
        } else {
            None
        };
        Ok(DykEntry { date: self.date, hook: self.hook, nompage })
    }
}

} // verus!
