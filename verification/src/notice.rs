//! Lines for the user.

use crate::text::string_views;
use vstd::prelude::*;

verus! {

/// A line for the user.
#[derive(Debug, PartialEq, Eq)]
pub enum Notice {
    /// For the standard output.
    Line(String),
    /// For the standard error output.
    Warning(String),
}

/// A line for the user, as a value of mathematics.
pub enum NoticeView {
    Line(Seq<char>),
    Warning(Seq<char>),
}

impl View for Notice {
    type V = NoticeView;

    open spec fn view(&self) -> NoticeView {
        match self {
            Notice::Line(t) => NoticeView::Line(t@),
            Notice::Warning(t) => NoticeView::Warning(t@),
        }
    }
}

/// The views of some lines.
pub open spec fn notice_views(notices: Seq<Notice>) -> Seq<NoticeView> {
    notices.map_values(|n: Notice| n@)
}

/// Lines for the standard output.
pub open spec fn out_lines(texts: Seq<Seq<char>>) -> Seq<NoticeView> {
    texts.map_values(|t: Seq<char>| NoticeView::Line(t))
}

impl Notice {
    /// A copy of this line.
    pub fn duplicate(&self) -> (r: Notice)
        ensures
            r@ == self@,
    {
        match self {
            Notice::Line(t) => Notice::Line(t.clone()),
            Notice::Warning(t) => Notice::Warning(t.clone()),
        }
    }
}

/// A copy of some lines.
pub fn duplicate_notices(notices: &Vec<Notice>) -> (r: Vec<Notice>)
    ensures
        notice_views(r@) == notice_views(notices@),
{
    let mut r: Vec<Notice> = Vec::new();
    for i in 0..notices.len()
        invariant
            notice_views(r@) =~= notice_views(notices@.take(i as int)),
    {
        let ghost before = r@;
        r.push(notices[i].duplicate());
        assert(notice_views(r@) =~= notice_views(before).push(notices@[i as int]@));
        assert(notice_views(notices@.take(i + 1)) =~= notice_views(notices@.take(i as int)).push(
            notices@[i as int]@,
        ));
    }
    assert(notices@.take(notices@.len() as int) == notices@);
    r
}

/// Adds lines for the standard output.
pub fn add_out_lines(notices: &mut Vec<Notice>, texts: &Vec<String>)
    ensures
        notice_views(final(notices)@) == notice_views(old(notices)@) + out_lines(
            string_views(texts@),
        ),
{
    let ghost start = notices@;
    for i in 0..texts.len()
        invariant
            notice_views(notices@) =~= notice_views(start) + out_lines(
                string_views(texts@.take(i as int)),
            ),
    {
        let ghost before = notices@;
        notices.push(Notice::Line(texts[i].clone()));
        assert(notice_views(notices@) =~= notice_views(before).push(
            NoticeView::Line(texts@[i as int]@),
        ));
        assert(out_lines(string_views(texts@.take(i + 1))) =~= out_lines(
            string_views(texts@.take(i as int)),
        ).push(NoticeView::Line(texts@[i as int]@)));
    }
    assert(texts@.take(texts@.len() as int) == texts@);
}

} // verus!
