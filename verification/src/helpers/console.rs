//! What the results of a group look like on the console: lines of styled text, each possibly
//! led by an icon.
use vstd::prelude::*;

use crate::helpers::{
    check_views, result_text, CategoryView, CheckGroupCategory, CheckGroupResult, CheckResultValue,
    CheckView, GroupView, ResultView,
};
use crate::text::concat_strs;

verus! {

/// The icon that leads a line.
#[derive(Debug, PartialEq, Eq, Structural, Clone, Copy)]
pub enum LineIcon {
    Check,
    Warn,
    Error,
}

/// The style of a piece of text.
#[derive(Debug, PartialEq, Eq, Structural, Clone, Copy)]
pub enum TextStyle {
    Plain,
    GreenBold,
    RedBold,
    YellowDim,
    MagentaDim,
    RedDim,
}

/// A piece of text and its style.
pub struct Segment {
    pub text: String,
    pub style: TextStyle,
}

/// A console line: an optional icon, then a space, then its segments.
pub struct ConsoleLine {
    pub icon: Option<LineIcon>,
    pub segments: Vec<Segment>,
}

/// The value of a console line.
pub struct LineView {
    pub icon: Option<LineIcon>,
    pub segments: Seq<(Seq<char>, TextStyle)>,
}

/// The views of a sequence of segments.
pub open spec fn segment_views(s: Seq<Segment>) -> Seq<(Seq<char>, TextStyle)> {
    s.map_values(|x: Segment| (x.text@, x.style))
}

/// The views of a sequence of lines.
pub open spec fn line_views(ls: Seq<ConsoleLine>) -> Seq<LineView> {
    ls.map_values(|l: ConsoleLine| LineView { icon: l.icon, segments: segment_views(l.segments@) })
}

/// The headline of a group: its name and its result.
pub open spec fn headline(g: GroupView) -> Seq<char> {
    g.name + ": "@ + result_text(g.result)
}

/// The lines that report a group of category `cat`: a check mark for a pass; for a failure or
/// an error, a warning naming the optional feature and marking the group optional when the
/// group is Optional, an error otherwise; a warning with the reason for a skip.
pub open spec fn group_lines(g: GroupView, cat: CategoryView) -> Seq<LineView> {
    let s = headline(g);
    match g.result {
        ResultView::Passed => seq![
            LineView { icon: Some(LineIcon::Check), segments: seq![(s, TextStyle::GreenBold)] },
        ],
        ResultView::Failed(_) | ResultView::Errored(_) => match cat {
            CategoryView::Optional(opt) => seq![
                LineView { icon: Some(LineIcon::Warn), segments: seq![(opt, TextStyle::YellowDim)] },
                LineView {
                    icon: Some(LineIcon::Warn),
                    segments: seq![(s, TextStyle::YellowDim), (" [Optional]"@, TextStyle::Plain)],
                },
            ],
            _ => seq![
                LineView { icon: Some(LineIcon::Error), segments: seq![(s, TextStyle::RedBold)] },
            ],
        },
        ResultView::Skipped(reason) => seq![
            LineView {
                icon: Some(LineIcon::Warn),
                segments: seq![
                    (s, TextStyle::YellowDim),
                    (" - "@, TextStyle::Plain),
                    (reason, TextStyle::YellowDim),
                ],
            },
        ],
        ResultView::Unknown => seq![
            LineView { icon: Some(LineIcon::Warn), segments: seq![(s, TextStyle::YellowDim)] },
        ],
    }
}

/// The style of a check's line.
pub open spec fn check_style(r: ResultView) -> TextStyle {
    match r {
        ResultView::Passed => TextStyle::MagentaDim,
        ResultView::Failed(_) => TextStyle::RedDim,
        ResultView::Errored(_) => TextStyle::RedDim,
        ResultView::Skipped(_) => TextStyle::YellowDim,
        ResultView::Unknown => TextStyle::YellowDim,
    }
}

/// The line that reports one check of a group.
pub open spec fn check_line(c: CheckView) -> LineView {
    LineView {
        icon: None,
        segments: seq![
            ("    \u{2022} "@ + c.name + ": "@ + result_text(c.result), check_style(c.result)),
        ],
    }
}

fn one_segment(icon: Option<LineIcon>, text: String, style: TextStyle) -> (r: ConsoleLine)
    ensures
        r.icon == icon,
        segment_views(r.segments@) == seq![(text@, style)],
{
    let mut segments = Vec::new();
    segments.push(Segment { text, style });
    assert(segment_views(segments@) =~= seq![(text@, style)]);
    ConsoleLine { icon, segments }
}

impl CheckGroupResult {
    /// The lines that report this group, of category `category`.
    pub fn log_group(&self, category: &CheckGroupCategory) -> (r: Vec<ConsoleLine>)
        ensures
            line_views(r@) == group_lines(self@, category@),
    {
        let mut s = concat_strs(self.name.as_str(), ": ");
        let shown = self.result.to_display_string();
        s.append(shown.as_str());
        assert(s@ == headline(self@));
        let ghost g = self@;
        let ghost cat = category@;
        let ghost sv = s@;
        let mut r: Vec<ConsoleLine> = Vec::new();
        match &self.result {
            CheckResultValue::Passed => {
                r.push(one_segment(Some(LineIcon::Check), s, TextStyle::GreenBold));
                assert(line_views(r@) =~~= seq![
                    LineView {
                        icon: Some(LineIcon::Check),
                        segments: seq![(sv, TextStyle::GreenBold)],
                    },
                ]);
            },
            CheckResultValue::Failed(_) | CheckResultValue::Errored(_) => {
                match category {
                    CheckGroupCategory::Optional(opt) => {
                        r.push(one_segment(Some(LineIcon::Warn), opt.clone(), TextStyle::YellowDim));
                        let mut segments = Vec::new();
                        segments.push(Segment { text: s, style: TextStyle::YellowDim });
                        segments.push(
                            Segment { text: String::from_str(" [Optional]"), style: TextStyle::Plain },
                        );
                        assert(segment_views(segments@) =~= seq![
                            (sv, TextStyle::YellowDim),
                            (" [Optional]"@, TextStyle::Plain),
                        ]);
                        r.push(ConsoleLine { icon: Some(LineIcon::Warn), segments });
                        assert(line_views(r@) =~~= seq![
                            LineView {
                                icon: Some(LineIcon::Warn),
                                segments: seq![(opt@, TextStyle::YellowDim)],
                            },
                            LineView {
                                icon: Some(LineIcon::Warn),
                                segments: seq![
                                    (sv, TextStyle::YellowDim),
                                    (" [Optional]"@, TextStyle::Plain),
                                ],
                            },
                        ]);
                    },
                    _ => {
                        r.push(one_segment(Some(LineIcon::Error), s, TextStyle::RedBold));
                        assert(line_views(r@) =~~= seq![
                            LineView {
                                icon: Some(LineIcon::Error),
                                segments: seq![(sv, TextStyle::RedBold)],
                            },
                        ]);
                    },
                }
            },
            CheckResultValue::Skipped(reason) => {
                let mut segments = Vec::new();
                segments.push(Segment { text: s, style: TextStyle::YellowDim });
                segments.push(Segment { text: String::from_str(" - "), style: TextStyle::Plain });
                segments.push(Segment { text: reason.clone(), style: TextStyle::YellowDim });
                assert(segment_views(segments@) =~= seq![
                    (sv, TextStyle::YellowDim),
                    (" - "@, TextStyle::Plain),
                    (reason@, TextStyle::YellowDim),
                ]);
                r.push(ConsoleLine { icon: Some(LineIcon::Warn), segments });
                assert(line_views(r@) =~~= seq![
                    LineView {
                        icon: Some(LineIcon::Warn),
                        segments: seq![
                            (sv, TextStyle::YellowDim),
                            (" - "@, TextStyle::Plain),
                            (reason@, TextStyle::YellowDim),
                        ],
                    },
                ]);
            },
            CheckResultValue::Unknown => {
                r.push(one_segment(Some(LineIcon::Warn), s, TextStyle::YellowDim));
                assert(line_views(r@) =~~= seq![
                    LineView {
                        icon: Some(LineIcon::Warn),
                        segments: seq![(sv, TextStyle::YellowDim)],
                    },
                ]);
            },
        }
        r
    }

    /// The lines that report each check of this group, in order.
    pub fn log_individual_checks(&self) -> (r: Vec<ConsoleLine>)
        ensures
            line_views(r@) == check_views(self.results@).map_values(|c: CheckView| check_line(c)),
    {
        let ghost cs = check_views(self.results@);
        let mut r: Vec<ConsoleLine> = Vec::new();
        let mut i: usize = 0;
        while i < self.results.len()
            invariant
                i <= self.results.len(),
                cs == check_views(self.results@),
                line_views(r@) == cs.map_values(|c: CheckView| check_line(c)).take(i as int),
            decreases self.results.len() - i,
        {
            let c = &self.results[i];
            assert(cs[i as int] == c@);
            let mut t = concat_strs("    \u{2022} ", c.name.as_str());
            t.append(": ");
            let shown = c.result.to_display_string();
            t.append(shown.as_str());
            let style = match &c.result {
                CheckResultValue::Passed => TextStyle::MagentaDim,
                CheckResultValue::Failed(_) => TextStyle::RedDim,
                CheckResultValue::Errored(_) => TextStyle::RedDim,
                CheckResultValue::Skipped(_) => TextStyle::YellowDim,
                CheckResultValue::Unknown => TextStyle::YellowDim,
            };
            let line = one_segment(None, t, style);
            proof {
                assert(line_views(r@.push(line)) =~= line_views(r@).push(check_line(cs[i as int])));
                assert(cs.map_values(|c: CheckView| check_line(c)).take(i + 1) =~= cs.map_values(
                    |c: CheckView| check_line(c),
                ).take(i as int).push(check_line(cs[i as int])));
            }
            r.push(line);
            i = i + 1;
        }
        assert(cs.map_values(|c: CheckView| check_line(c)).take(self.results.len() as int)
            =~= cs.map_values(|c: CheckView| check_line(c)));
        r
    }
}

/// The level at which a result is logged.
#[derive(Debug, PartialEq, Eq, Structural, Clone, Copy)]
pub enum LogLevel {
    Info,
    Warn,
    Error,
}

/// The level of a result: a pass is information, an error an error, anything else a warning.
pub open spec fn log_level(r: ResultView) -> LogLevel {
    match r {
        ResultView::Passed => LogLevel::Info,
        ResultView::Errored(_) => LogLevel::Error,
        _ => LogLevel::Warn,
    }
}

fn log_level_exec(r: &CheckResultValue) -> (l: LogLevel)
    ensures
        l == log_level(r@),
{
    match r {
        CheckResultValue::Passed => LogLevel::Info,
        CheckResultValue::Errored(_) => LogLevel::Error,
        _ => LogLevel::Warn,
    }
}

/// The log record of a check of the group named `group`: `[group] name: result`.
pub open spec fn check_record(group: Seq<char>, c: CheckView) -> (LogLevel, Seq<char>) {
    (log_level(c.result), "["@ + group + "] "@ + c.name + ": "@ + result_text(c.result))
}

impl CheckGroupResult {
    /// The log record of this group: its level and `[name] result`.
    pub fn log_record(&self) -> (r: (LogLevel, String))
        ensures
            r.0 == log_level(self@.result),
            r.1@ == "["@ + self@.name + "] "@ + result_text(self@.result),
    {
        let mut m = concat_strs("[", self.name.as_str());
        m.append("] ");
        let shown = self.result.to_display_string();
        m.append(shown.as_str());
        (log_level_exec(&self.result), m)
    }

    /// The log records of this group's checks, in order.
    pub fn log_check_records(&self) -> (r: Vec<(LogLevel, String)>)
        ensures
            r@.len() == self.results@.len(),
            forall|i: int|
                0 <= i < r@.len() ==> (#[trigger] r@[i]).0 == check_record(
                    self@.name,
                    self@.results[i],
                ).0 && r@[i].1@ == check_record(self@.name, self@.results[i]).1,
    {
        let mut r: Vec<(LogLevel, String)> = Vec::new();
        let mut i: usize = 0;
        while i < self.results.len()
            invariant
                i <= self.results.len(),
                r@.len() == i,
                forall|j: int|
                    0 <= j < i ==> (#[trigger] r@[j]).0 == check_record(
                        self@.name,
                        self@.results[j],
                    ).0 && r@[j].1@ == check_record(self@.name, self@.results[j]).1,
            decreases self.results.len() - i,
        {
            let c = &self.results[i];
            assert(self@.results[i as int] == c@);
            let mut m = concat_strs("[", self.name.as_str());
            m.append("] ");
            m.append(c.name.as_str());
            m.append(": ");
            let shown = c.result.to_display_string();
            m.append(shown.as_str());
            r.push((log_level_exec(&c.result), m));
            i = i + 1;
        }
        r
    }
}

} // verus!
