//! Placement actions and the ordered rule table that picks one for each new window.
use vstd::prelude::*;

use crate::geometry::Rect;
use crate::BAR_HEIGHT_PX;
use crate::hints::{
    notification_rect, notification_spec, screen_ok, suggested_centered, suggested_centered_spec,
    GeometryError, RelRect, SizeHints, WHOLE,
};
use crate::query::{answer_of, atom_spec, class_is, eval, lemma_one_of_any, one_of_spec, str_query_spec, title_is, KnownAtom, OneOfQuery, Query, QueryError, StrQuery, WindowProps, atom_name};

verus! {

/// One change to the managed window set, made in order by the window manager.
#[derive(Clone, Copy, Debug, PartialEq, Eq, Structural)]
pub enum Placement {
    /// Float the window at this rectangle.
    Float(Rect),
    /// Stop managing the window.
    Remove,
}

/// Float at the base size the window suggests (else `width` by `height`
/// thousandths of the screen), clamped to its size limits, centered on the screen.
#[derive(Clone, Copy, Debug, PartialEq, Eq, Structural)]
pub struct FloatingSuggestedCentered {
    pub width: u32,
    pub height: u32,
}

impl FloatingSuggestedCentered {
    pub open spec fn wf(self) -> bool {
        0 < self.width <= WHOLE && 0 < self.height <= WHOLE
    }

    /// Fallback proportions in thousandths, each in `(0, 1]`.
    pub fn new(width: u32, height: u32) -> (r: FloatingSuggestedCentered)
        requires
            0 < width <= WHOLE,
            0 < height <= WHOLE,
        ensures
            r == (FloatingSuggestedCentered { width, height }),
            r.wf(),
    {
        FloatingSuggestedCentered { width, height }
    }
}

impl Default for FloatingSuggestedCentered {
    /// A quarter of the screen each way.
    fn default() -> (r: FloatingSuggestedCentered)
        ensures
            r == (FloatingSuggestedCentered { width: 250, height: 250 }),
    {
        FloatingSuggestedCentered { width: 250, height: 250 }
    }
}

/// Float a notification at the top right of the screen, at its user-specified
/// size, else `width` by `height` thousandths of the screen.
#[derive(Clone, Copy, Debug, PartialEq, Eq, Structural)]
pub struct NotificationUserSuggested {
    pub width: u32,
    pub height: u32,
}

impl NotificationUserSuggested {
    pub open spec fn wf(self) -> bool {
        0 < self.width <= WHOLE && 0 < self.height <= WHOLE
    }

    /// Fallback proportions in thousandths, each in `(0, 1]`.
    pub fn new(width: u32, height: u32) -> (r: NotificationUserSuggested)
        requires
            0 < width <= WHOLE,
            0 < height <= WHOLE,
        ensures
            r == (NotificationUserSuggested { width, height }),
            r.wf(),
    {
        NotificationUserSuggested { width, height }
    }
}

impl Default for NotificationUserSuggested {
    /// Fifteen hundredths of the screen wide, five hundredths high.
    fn default() -> (r: NotificationUserSuggested)
        ensures
            r == (NotificationUserSuggested { width: 150, height: 50 }),
    {
        NotificationUserSuggested { width: 150, height: 50 }
    }
}

/// Stops managing the window: it keeps its place on screen but is no client.
pub struct IgnoreWindow;

impl IgnoreWindow {
    /// Records the removal of the window.
    pub fn call(&self, steps: &mut Vec<Placement>)
        ensures
            final(steps)@ == old(steps)@.push(Placement::Remove),
    {
        steps.push(Placement::Remove);
    }
}

/// What to do with a window that a rule matched.
#[derive(Debug)]
pub enum Action {
    /// Leave it to the tiling layout.
    DefaultTiled,
    /// Float it at a fixed rectangle.
    FloatingFixed(Rect),
    /// Float it at a rectangle relative to the screen.
    FloatingRelative(RelRect),
    FloatingSuggestedCentered(FloatingSuggestedCentered),
    NotificationUserSuggested(NotificationUserSuggested),
    IgnoreWindow,
    /// Run the first action, then the second.
    Then(Box<Action>, Box<Action>),
}

impl Action {
    pub open spec fn wf(self) -> bool
        decreases self,
    {
        match self {
            Action::FloatingRelative(r) => r.wf(),
            Action::FloatingSuggestedCentered(f) => f.wf(),
            Action::NotificationUserSuggested(n) => n.wf(),
            Action::Then(a, b) => a.wf() && b.wf(),
            _ => true,
        }
    }

    pub open spec fn and_then_spec(self, next: Action) -> Action {
        Action::Then(Box::new(self), Box::new(next))
    }

    /// Runs `self`, then `next`.
    pub fn and_then(self, next: Action) -> (r: Action)
        ensures
            r == self.and_then_spec(next),
            self.wf() && next.wf() ==> r.wf(),
    {
        Action::Then(Box::new(self), Box::new(next))
    }
}

/// The hints a window without normal hints is placed by: no sizes at all, so
/// the relative default applies.
pub open spec fn hints_or_none(h: Option<SizeHints>) -> SizeHints {
    match h {
        Some(hs) => hs,
        None => SizeHints { base: None, min: None, max: None, user_specified: None },
    }
}

/// The steps an action takes on window `w` with the focused screen `screen`,
/// and the error that stopped it, if any. Steps taken before an error stay taken.
/// A placement that reads the size hints fails where they cannot be read, and
/// uses its relative default size where the window sets none.
pub open spec fn action_spec(a: Action, w: WindowProps, screen: Rect) -> (Seq<Placement>, Option<HookError>)
    decreases a,
{
    match a {
        Action::DefaultTiled => (Seq::empty(), None),
        Action::FloatingFixed(r) => (seq![Placement::Float(r)], None),
        Action::FloatingRelative(rel) => (seq![Placement::Float(rel.applied_spec(screen))], None),
        Action::FloatingSuggestedCentered(f) => match w.normal_hints {
            Err(e) => (Seq::empty(), Some(HookError::Query(e))),
            Ok(h) => match suggested_centered_spec(hints_or_none(h), RelRect { x: 0, y: 0, w: f.width, h: f.height }, screen) {
                Ok(r) => (seq![Placement::Float(r)], None),
                Err(e) => (Seq::empty(), Some(HookError::Geometry(e))),
            },
        },
        Action::NotificationUserSuggested(n) => match w.normal_hints {
            Err(e) => (Seq::empty(), Some(HookError::Query(e))),
            Ok(h) => match notification_spec(hints_or_none(h), n.width, n.height, screen) {
                Ok(r) => (seq![Placement::Float(r)], None),
                Err(e) => (Seq::empty(), Some(HookError::Geometry(e))),
            },
        },
        Action::IgnoreWindow => (seq![Placement::Remove], None),
        Action::Then(a1, a2) => {
            let first = action_spec(*a1, w, screen);
            match first.1 {
                Some(e) => first,
                None => {
                    let second = action_spec(*a2, w, screen);
                    (first.0 + second.0, second.1)
                },
            }
        },
    }
}

pub open spec fn outcome(e: Option<HookError>) -> Result<(), HookError> {
    match e {
        None => Ok(()),
        Some(e) => Err(e),
    }
}

/// The hints to place by: those given, else none at all.
fn hints_or_empty(h: &Option<SizeHints>) -> (r: SizeHints)
    ensures
        r == hints_or_none(*h),
{
    match h {
        Some(hs) => *hs,
        None => SizeHints::new(None, None, None, None),
    }
}

impl Action {
    /// Appends the action's steps for window `w` to `steps`.
    pub fn call(&self, w: &WindowProps, screen: Rect, steps: &mut Vec<Placement>) -> (r: Result<(), HookError>)
        requires
            self.wf(),
            screen_ok(screen),
        ensures
            final(steps)@ == old(steps)@ + action_spec(*self, *w, screen).0,
            r == outcome(action_spec(*self, *w, screen).1),
        decreases self,
    {
        match self {
            Action::DefaultTiled => {
                assert(old(steps)@ + Seq::<Placement>::empty() =~= old(steps)@);
                Ok(())
            },
            Action::FloatingFixed(r) => {
                steps.push(Placement::Float(*r));
                assert(old(steps)@ + seq![Placement::Float(*r)] =~= old(steps)@.push(Placement::Float(*r)));
                Ok(())
            },
            Action::FloatingRelative(rel) => {
                let r = rel.applied_to(&screen);
                steps.push(Placement::Float(r));
                assert(old(steps)@ + seq![Placement::Float(r)] =~= old(steps)@.push(Placement::Float(r)));
                Ok(())
            },
            Action::FloatingSuggestedCentered(f) => match &w.normal_hints {
                Err(e) => {
                    assert(old(steps)@ + Seq::<Placement>::empty() =~= old(steps)@);
                    Err(HookError::Query(*e))
                },
                Ok(h) => {
                    let hints = hints_or_empty(h);
                    let fallback = RelRect { x: 0, y: 0, w: f.width, h: f.height };
                    match suggested_centered(&hints, fallback, screen) {
                        Ok(r) => {
                            steps.push(Placement::Float(r));
                            assert(old(steps)@ + seq![Placement::Float(r)] =~= old(steps)@.push(Placement::Float(r)));
                            Ok(())
                        },
                        Err(e) => {
                            assert(old(steps)@ + Seq::<Placement>::empty() =~= old(steps)@);
                            Err(HookError::Geometry(e))
                        },
                    }
                },
            },
            Action::NotificationUserSuggested(n) => match &w.normal_hints {
                Err(e) => {
                    assert(old(steps)@ + Seq::<Placement>::empty() =~= old(steps)@);
                    Err(HookError::Query(*e))
                },
                Ok(h) => {
                    let hints = hints_or_empty(h);
                    match notification_rect(&hints, n.width, n.height, screen) {
                        Ok(r) => {
                            steps.push(Placement::Float(r));
                            assert(old(steps)@ + seq![Placement::Float(r)] =~= old(steps)@.push(Placement::Float(r)));
                            Ok(())
                        },
                        Err(e) => {
                            assert(old(steps)@ + Seq::<Placement>::empty() =~= old(steps)@);
                            Err(HookError::Geometry(e))
                        },
                    }
                },
            },
            Action::IgnoreWindow => {
                IgnoreWindow.call(steps);
                assert(old(steps)@ + seq![Placement::Remove] =~= old(steps)@.push(Placement::Remove));
                Ok(())
            },
            Action::Then(a1, a2) => {
                let r1 = a1.call(w, screen, steps);
                match r1 {
                    Err(e) => Err(e),
                    Ok(()) => {
                        let ghost mid = steps@;
                        let r2 = a2.call(w, screen, steps);
                        assert(old(steps)@ + (action_spec(**a1, *w, screen).0 + action_spec(**a2, *w, screen).0)
                            =~= mid + action_spec(**a2, *w, screen).0);
                        r2
                    },
                }
            },
        }
    }
}

/// A predicate and the action to take on windows it holds for.
#[derive(Debug)]
pub struct Rule {
    pub query: Query,
    pub action: Action,
}

/// Why placing a new window failed.
#[derive(Clone, Copy, Debug, PartialEq, Eq, Structural)]
pub enum HookError {
    /// A predicate could not be evaluated (no action ran), or an action could
    /// not read a property it places by.
    Query(QueryError),
    /// The chosen action could not compute its geometry.
    Geometry(GeometryError),
}

/// The rule that decides for `w`, searching from index `i`: the first whose
/// predicate holds; a predicate that fails ends the search with its failure.
pub open spec fn first_match_from(rules: Seq<Rule>, w: WindowProps, i: int) -> Result<Option<int>, QueryError>
    decreases rules.len() - i,
{
    if i < 0 || i >= rules.len() {
        Ok(None)
    } else {
        match eval(rules[i].query, w) {
            Err(e) => Err(e),
            Ok(true) => Ok(Some(i)),
            Ok(false) => first_match_from(rules, w, i + 1),
        }
    }
}

pub open spec fn first_match(rules: Seq<Rule>, w: WindowProps) -> Result<Option<int>, QueryError> {
    first_match_from(rules, w, 0)
}

/// Rules tried in order; the first that holds for a window decides its placement.
#[derive(Debug)]
pub struct RuleTable {
    pub rules: Vec<Rule>,
}

impl RuleTable {
    pub open spec fn wf(self) -> bool {
        forall|i: int| 0 <= i < self.rules@.len() ==> (#[trigger] self.rules@[i]).action.wf()
    }

    /// An empty table: every window keeps its default placement.
    pub fn new() -> (r: RuleTable)
        ensures
            r.rules@.len() == 0,
            r.wf(),
    {
        RuleTable { rules: Vec::new() }
    }

    /// Appends a rule, tried after all those already in the table.
    pub fn push(&mut self, query: Query, action: Action)
        requires
            action.wf(),
            old(self).wf(),
        ensures
            final(self).rules@ == old(self).rules@.push(Rule { query, action }),
            final(self).wf(),
    {
        self.rules.push(Rule { query, action });
    }

    /// The index of the rule that decides for `w`, if any holds.
    pub fn find(&self, w: &WindowProps) -> (r: Result<Option<usize>, QueryError>)
        ensures
            match r {
                Ok(Some(i)) => first_match(self.rules@, *w) == Ok::<Option<int>, QueryError>(Some(i as int))
                    && i < self.rules@.len(),
                Ok(None) => first_match(self.rules@, *w) == Ok::<Option<int>, QueryError>(None),
                Err(e) => first_match(self.rules@, *w) == Err::<Option<int>, QueryError>(e),
            },
    {
        let mut i: usize = 0;
        while i < self.rules.len()
            invariant
                i <= self.rules@.len(),
                first_match(self.rules@, *w) == first_match_from(self.rules@, *w, i as int),
            decreases self.rules@.len() - i,
        {
            match self.rules[i].query.run(w) {
                Err(e) => return Err(e),
                Ok(true) => return Ok(Some(i)),
                Ok(false) => {},
            }
            i = i + 1;
        }
        Ok(None)
    }

    /// Places a newly managed window: runs the action of the first rule that
    /// holds for it and appends that action's steps to `steps`. Returns the
    /// index of that rule, or `None` where no rule holds and the window keeps
    /// its default placement.
    pub fn run(&self, w: &WindowProps, screen: Rect, steps: &mut Vec<Placement>) -> (r: Result<Option<usize>, HookError>)
        requires
            self.wf(),
            screen_ok(screen),
        ensures
            match first_match(self.rules@, *w) {
                Err(e) => r == Err::<Option<usize>, HookError>(HookError::Query(e)) && final(steps)@ == old(steps)@,
                Ok(None) => r == Ok::<Option<usize>, HookError>(None) && final(steps)@ == old(steps)@,
                Ok(Some(i)) => {
                    let done = action_spec(self.rules@[i].action, *w, screen);
                    &&& final(steps)@ == old(steps)@ + done.0
                    &&& r == match done.1 {
                        None => Ok::<Option<usize>, HookError>(Some(i as usize)),
                        Some(e) => Err(e),
                    }
                },
            },
    {
        match self.find(w) {
            Err(e) => Err(HookError::Query(e)),
            Ok(None) => Ok(None),
            Ok(Some(i)) => {
                let rule = &self.rules[i];
                assert(rule.action.wf());
                match rule.action.call(w, screen, steps) {
                    Ok(()) => Ok(Some(i)),
                    Err(e) => Err(e),
                }
            },
        }
    }
}

/// Of two rules that both hold for a window, the earlier decides: a table whose
/// first rule holds picks that rule, whatever follows it, and so the same two
/// rules in the other order pick the other one.
pub proof fn lemma_first_rule_wins(rules: Seq<Rule>, w: WindowProps)
    requires
        rules.len() > 0,
        eval(rules[0].query, w) == Ok::<bool, QueryError>(true),
    ensures
        first_match(rules, w) == Ok::<Option<int>, QueryError>(Some(0)),
{
}

/// A rule that holds before index `i` decides instead of the one at `i`.
pub proof fn lemma_earlier_rule_decides(rules: Seq<Rule>, w: WindowProps, i: int)
    requires
        0 <= i < rules.len(),
        eval(rules[i].query, w) == Ok::<bool, QueryError>(true),
    ensures
        match first_match(rules, w) {
            Ok(Some(j)) => j <= i,
            Err(_) => true,
            Ok(None) => false,
        },
{
    lemma_match_from_at_most(rules, w, 0, i);
}

proof fn lemma_match_from_at_most(rules: Seq<Rule>, w: WindowProps, k: int, i: int)
    requires
        0 <= k <= i < rules.len(),
        eval(rules[i].query, w) == Ok::<bool, QueryError>(true),
    ensures
        match first_match_from(rules, w, k) {
            Ok(Some(j)) => k <= j <= i,
            Err(_) => true,
            Ok(None) => false,
        },
    decreases i - k,
{
    if k < i {
        lemma_match_from_at_most(rules, w, k + 1, i);
    }
}

/// Titles of the Zoom windows that tile; other Zoom windows float.
pub open spec fn zoom_tile_titles() -> Seq<Seq<char>> {
    seq![
        "Zoom - Free Account"@,  // main window
        "Zoom Workplace - Free account"@,  // main window
        "Zoom - Licensed Account"@,  // main window
        "Zoom Workplace - Licensed account"@,  // main window
        "Zoom"@,  // meeting window on creation
        "Zoom Workplace"@,  // meeting window on creation
        "Zoom Meeting"@,  // meeting window shortly after creation
        "Meeting"@,  // meeting window while in meeting
        "Settings"@,  // settings window
        "Meeting chat"@,  // chat window while in meeting
        "Chat"@,  // chat window shortly after creation
        ""@,  // main window before it is renamed
    ]
}

/// The titles of [`zoom_tile_titles`], in order.
pub fn zoom_tile_title_strings() -> (r: Vec<String>)
    ensures
        r@.len() == zoom_tile_titles().len(),
        forall|i: int| 0 <= i < r@.len() ==> #[trigger] r@[i]@ == zoom_tile_titles()[i],
{
    let mut r: Vec<String> = Vec::new();
    r.push("Zoom - Free Account".to_owned());
    r.push("Zoom Workplace - Free account".to_owned());
    r.push("Zoom - Licensed Account".to_owned());
    r.push("Zoom Workplace - Licensed account".to_owned());
    r.push("Zoom".to_owned());
    r.push("Zoom Workplace".to_owned());
    r.push("Zoom Meeting".to_owned());
    r.push("Meeting".to_owned());
    r.push("Settings".to_owned());
    r.push("Meeting chat".to_owned());
    r.push("Chat".to_owned());
    r.push("".to_owned());
    assert(r@.len() == zoom_tile_titles().len());
    assert(r@[0]@ == zoom_tile_titles()[0]);
    assert(r@[1]@ == zoom_tile_titles()[1]);
    assert(r@[2]@ == zoom_tile_titles()[2]);
    assert(r@[3]@ == zoom_tile_titles()[3]);
    assert(r@[4]@ == zoom_tile_titles()[4]);
    assert(r@[5]@ == zoom_tile_titles()[5]);
    assert(r@[6]@ == zoom_tile_titles()[6]);
    assert(r@[7]@ == zoom_tile_titles()[7]);
    assert(r@[8]@ == zoom_tile_titles()[8]);
    assert(r@[9]@ == zoom_tile_titles()[9]);
    assert(r@[10]@ == zoom_tile_titles()[10]);
    assert(r@[11]@ == zoom_tile_titles()[11]);
    r
}

/// The rectangle docks and trays float at: the left end of the bar.
pub open spec fn bar_corner() -> Rect {
    Rect { x: 0, y: 0, w: 100, h: BAR_HEIGHT_PX }
}

/// Whether `q` is a class-name test against `name`.
pub open spec fn is_class_test(q: Query, name: Seq<char>) -> bool {
    match q {
        Query::ClassName(s) => s@ == name,
        _ => false,
    }
}

/// Whether `o` tests the title against exactly the strings `ts`, in that order.
pub open spec fn is_title_list(o: OneOfQuery, ts: Seq<Seq<char>>) -> bool {
    &&& o.constr == StrQuery::Title
    &&& o.strs@.len() == ts.len()
    &&& forall|i: int| 0 <= i < ts.len() ==> #[trigger] o.strs@[i]@ == ts[i]
}

/// Whether `q` is `class is name, and the title is one of ts` (or, with
/// `negated`, is none of them).
pub open spec fn is_class_and_titles(q: Query, name: Seq<char>, ts: Seq<Seq<char>>, negated: bool) -> bool {
    match q {
        Query::And(a, b) => is_class_test(*a, name) && if negated {
            match *b {
                Query::Not(inner) => match *inner {
                    Query::OneOf(o) => is_title_list(o, ts),
                    _ => false,
                },
                _ => false,
            }
        } else {
            match *b {
                Query::OneOf(o) => is_title_list(o, ts),
                _ => false,
            }
        },
        _ => false,
    }
}

/// Whether `q` tests that the string property `prop` is `value`.
pub open spec fn is_string_test(q: Query, prop: Seq<char>, value: Seq<char>) -> bool {
    match q {
        Query::StringProperty(p, v) => p@ == prop && v@ == value,
        _ => false,
    }
}

/// Whether `q` picks out Zoom's audio notifications: static size hints, and
/// `_NET_WM_NAME` is "zoom", and `WM_NAME` is empty.
pub open spec fn is_zoom_notification_test(q: Query) -> bool {
    match q {
        Query::And(a, b) => is_string_test(*b, atom_spec(KnownAtom::WmName), ""@) && match *a {
            Query::And(c, d) => *c == Query::StaticSizeHints
                && is_string_test(*d, atom_spec(KnownAtom::NetWmName), "zoom"@),
            _ => false,
        },
        _ => false,
    }
}

/// The placement rules of this configuration, in the order they are tried:
/// Zoom's audio notifications go to the top right corner; Zoom's main, meeting
/// and chat windows tile and its other windows float near the top right;
/// Obsidian's help window and every window that cannot be resized float
/// centered; docks float over the bar and leave management; the tray floats
/// over the bar.
pub fn manage_hook() -> (r: RuleTable)
    ensures
        r.wf(),
        r.rules@.len() == 7,
        is_zoom_notification_test(r.rules@[0].query),
        r.rules@[0].action == Action::NotificationUserSuggested(NotificationUserSuggested { width: 150, height: 50 }),
        r.rules@[1].action == Action::DefaultTiled,
        is_class_and_titles(r.rules@[1].query, "zoom"@, zoom_tile_titles(), false),
        r.rules@[2].action == Action::FloatingRelative(RelRect { x: 750, y: 0, w: 900, h: 100 }),
        is_class_and_titles(r.rules@[2].query, "zoom"@, zoom_tile_titles(), true),
        r.rules@[3].action == Action::FloatingSuggestedCentered(FloatingSuggestedCentered { width: 250, height: 250 }),
        is_class_and_titles(r.rules@[3].query, "obsidian"@, seq!["Obsidian Help"@], false),
        r.rules@[4].action == Action::FloatingSuggestedCentered(FloatingSuggestedCentered { width: 250, height: 250 }),
        r.rules@[4].query == Query::ConstrainedSizeHints,
        r.rules@[5].action == Action::FloatingFixed(bar_corner()).and_then_spec(Action::IgnoreWindow),
        r.rules@[5].query == Query::IsDock,
        r.rules@[6].action == Action::FloatingFixed(bar_corner()),
        is_class_test(r.rules@[6].query, "stalonetray"@),
{
    let top_right_corner = RelRect::new(750, 0, 900, 100);
    let mut table = RuleTable::new();

    let zoom_notification = Query::StaticSizeHints
        .and(Query::StringProperty(atom_name(KnownAtom::NetWmName), "zoom".to_owned()))
        .and(Query::StringProperty(atom_name(KnownAtom::WmName), "".to_owned()));
    table.push(zoom_notification, Action::NotificationUserSuggested(NotificationUserSuggested::default()));

    let zoom_titles = OneOfQuery { strs: zoom_tile_title_strings(), constr: StrQuery::Title };
    table.push(
        Query::ClassName("zoom".to_owned()).and(Query::OneOf(zoom_titles)),
        Action::DefaultTiled,
    );
    let zoom_titles = OneOfQuery { strs: zoom_tile_title_strings(), constr: StrQuery::Title };
    table.push(
        Query::ClassName("zoom".to_owned()).and(Query::OneOf(zoom_titles).not()),
        Action::FloatingRelative(top_right_corner),
    );
    table.push(
        Query::ClassName("obsidian".to_owned()).and(
            Query::OneOf(OneOfQuery { strs: vec!["Obsidian Help".to_owned()], constr: StrQuery::Title }),
        ),
        Action::FloatingSuggestedCentered(FloatingSuggestedCentered::default()),
    );
    table.push(
        Query::ConstrainedSizeHints,
        Action::FloatingSuggestedCentered(FloatingSuggestedCentered::default()),
    );
    let fixed = Action::FloatingFixed(Rect::new(0, 0, 100, BAR_HEIGHT_PX));
    assert(fixed.wf() && Action::IgnoreWindow.wf());
    table.push(Query::IsDock, fixed.and_then(Action::IgnoreWindow));
    table.push(
        Query::ClassName("stalonetray".to_owned()),
        Action::FloatingFixed(Rect::new(0, 0, 100, BAR_HEIGHT_PX)),
    );
    table
}

/// Whether the title of `w` is one of `ts`.
pub open spec fn title_listed(w: WindowProps, ts: Seq<Seq<char>>) -> bool {
    exists|i: int|
        0 <= i < ts.len() && #[trigger] title_is(
            answer_of(w, atom_spec(KnownAtom::WmName)),
            answer_of(w, atom_spec(KnownAtom::NetWmName)),
            ts[i],
        ) == Ok::<bool, QueryError>(true)
}

/// A title test over a list of strings never fails, and holds exactly when the
/// window's title is in the list.
pub proof fn lemma_title_list(o: OneOfQuery, ts: Seq<Seq<char>>, w: WindowProps)
    requires
        is_title_list(o, ts),
    ensures
        one_of_spec(o.strs@, StrQuery::Title, w) == Ok::<bool, QueryError>(title_listed(w, ts)),
{
    let strs = o.strs@;
    assert forall|i: int| 0 <= i < strs.len() implies (#[trigger] str_query_spec(StrQuery::Title, strs[i]@, w)).is_ok() by {}
    lemma_one_of_any(strs, StrQuery::Title, w);
    let wm = answer_of(w, atom_spec(KnownAtom::WmName));
    let net = answer_of(w, atom_spec(KnownAtom::NetWmName));
    if title_listed(w, ts) {
        let i = choose|i: int| 0 <= i < ts.len() && #[trigger] title_is(wm, net, ts[i]) == Ok::<bool, QueryError>(true);
        assert(strs[i]@ == ts[i]);
        assert(str_query_spec(StrQuery::Title, strs[i]@, w) == Ok::<bool, QueryError>(true));
    }
    if exists|i: int| 0 <= i < strs.len() && #[trigger] str_query_spec(StrQuery::Title, strs[i]@, w) == Ok::<bool, QueryError>(true) {
        let i = choose|i: int| 0 <= i < strs.len() && #[trigger] str_query_spec(StrQuery::Title, strs[i]@, w) == Ok::<bool, QueryError>(true);
        assert(strs[i]@ == ts[i]);
        assert(title_is(wm, net, ts[i]) == Ok::<bool, QueryError>(true));
    }
}

/// In a table laid out as [`manage_hook`]'s, a Zoom window that the first rule
/// passes over tiles (second rule) exactly when its title is one of the Zoom
/// tile titles, and otherwise floats at the top right (third rule).
pub proof fn lemma_zoom_titles_decide(rules: Seq<Rule>, w: WindowProps)
    requires
        rules.len() >= 3,
        eval(rules[0].query, w) == Ok::<bool, QueryError>(false),
        is_class_and_titles(rules[1].query, "zoom"@, zoom_tile_titles(), false),
        is_class_and_titles(rules[2].query, "zoom"@, zoom_tile_titles(), true),
        class_is(answer_of(w, atom_spec(KnownAtom::WmClass)), "zoom"@) == Ok::<bool, QueryError>(true),
    ensures
        first_match(rules, w) == Ok::<Option<int>, QueryError>(
            Some(if title_listed(w, zoom_tile_titles()) { 1 } else { 2 }),
        ),
{
    let listed = title_listed(w, zoom_tile_titles());
    match rules[1].query {
        Query::And(a, b) => match *b {
            Query::OneOf(o) => {
                lemma_title_list(o, zoom_tile_titles(), w);
                assert(eval(*a, w) == Ok::<bool, QueryError>(true));
                assert(eval(*b, w) == Ok::<bool, QueryError>(listed));
                assert(eval(rules[1].query, w) == Ok::<bool, QueryError>(listed));
            },
            _ => {},
        },
        _ => {},
    }
    match rules[2].query {
        Query::And(a, b) => match *b {
            Query::Not(inner) => match *inner {
                Query::OneOf(o) => {
                    lemma_title_list(o, zoom_tile_titles(), w);
                    assert(eval(*a, w) == Ok::<bool, QueryError>(true));
                    assert(eval(*inner, w) == Ok::<bool, QueryError>(listed));
                    assert(eval(*b, w) == Ok::<bool, QueryError>(!listed));
                    assert(eval(rules[2].query, w) == Ok::<bool, QueryError>(!listed));
                },
                _ => {},
            },
            _ => {},
        },
        _ => {},
    }
    assert(first_match(rules, w) == first_match_from(rules, w, 1));
    if !title_listed(w, zoom_tile_titles()) {
        assert(first_match_from(rules, w, 1) == first_match_from(rules, w, 2));
    }
}

} // verus!
