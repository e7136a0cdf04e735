//! Predicates over a window's properties: primitive tests, their boolean
//! composition, and "one of these strings" queries.
//!
//! A window is described by what the X server answered for its properties
//! ([`WindowProps`]). An answer may be a failure; a predicate that consults a
//! failed answer fails with it, while one that never consults it is unaffected.
use vstd::prelude::*;

use crate::hints::{constrained_spec, is_constrained, SizeHints};

verus! {

/// Why the X server could not answer a query about a window.
#[derive(Clone, Copy, Debug, PartialEq, Eq, Structural)]
pub enum QueryError {
    /// The connection or the protocol failed.
    Connection,
    /// A property held data of a shape it cannot have.
    InvalidPropertyData,
    /// The size hints property had the wrong type or length.
    InvalidHints,
}

/// The properties a window is tested against by name.
#[derive(Clone, Copy, Debug, PartialEq, Eq, Structural)]
pub enum KnownAtom {
    WmClass,
    WmName,
    NetWmName,
    NetWmWindowType,
    NetWindowTypeDock,
    NetWindowTypeDesktop,
}

/// The name the X server knows each atom by.
pub open spec fn atom_spec(a: KnownAtom) -> Seq<char> {
    match a {
        KnownAtom::WmClass => "WM_CLASS"@,
        KnownAtom::WmName => "WM_NAME"@,
        KnownAtom::NetWmName => "_NET_WM_NAME"@,
        KnownAtom::NetWmWindowType => "_NET_WM_WINDOW_TYPE"@,
        KnownAtom::NetWindowTypeDock => "_NET_WM_WINDOW_TYPE_DOCK"@,
        KnownAtom::NetWindowTypeDesktop => "_NET_WM_WINDOW_TYPE_DESKTOP"@,
    }
}

/// Relies on penrose's `Atom` and its `AsRef<str>`, which gives each atom's X name.
#[verifier::external_body]
pub(crate) fn atom_name(a: KnownAtom) -> (r: String)
    ensures
        r@ == atom_spec(a),
{
    let atom = match a {
        KnownAtom::WmClass => penrose::x::Atom::WmClass,
        KnownAtom::WmName => penrose::x::Atom::WmName,
        KnownAtom::NetWmName => penrose::x::Atom::NetWmName,
        KnownAtom::NetWmWindowType => penrose::x::Atom::NetWmWindowType,
        KnownAtom::NetWindowTypeDock => penrose::x::Atom::NetWindowTypeDock,
        KnownAtom::NetWindowTypeDesktop => penrose::x::Atom::NetWindowTypeDesktop,
    };
    atom.as_ref().to_string()
}

/// The server's answer for one string property of a window: the strings it
/// holds, `None` where the window does not set it, or the failure.
pub struct StrProp {
    pub name: String,
    pub answer: Result<Option<Vec<String>>, QueryError>,
}

/// What a predicate may learn of a window.
pub struct WindowProps {
    /// The window's X id.
    pub id: u32,
    /// String properties; a name that is not listed is not set on the window.
    pub props: Vec<StrProp>,
    /// The window's normal hints, `None` where the window sets none, or why
    /// they could not be read.
    pub normal_hints: Result<Option<SizeHints>, QueryError>,
    /// Whether the raw size hints ask for static gravity, or why that could not be read.
    pub static_gravity: Result<bool, QueryError>,
}

/// The answer recorded for `name`, searching from index `i`: the first entry
/// with that name wins; an unlisted name is an unset property.
pub open spec fn answer_from(props: Seq<StrProp>, name: Seq<char>, i: int) -> Result<Option<Vec<String>>, QueryError>
    decreases props.len() - i,
{
    if i < 0 || i >= props.len() {
        Ok(None)
    } else if props[i].name@ == name {
        props[i].answer
    } else {
        answer_from(props, name, i + 1)
    }
}

pub open spec fn answer_of(w: WindowProps, name: Seq<char>) -> Result<Option<Vec<String>>, QueryError> {
    answer_from(w.props@, name, 0)
}

/// Finds the entry that answers for `name`.
fn answer_index(props: &Vec<StrProp>, name: &String) -> (r: Option<usize>)
    ensures
        match r {
            Some(i) => i < props@.len() && answer_from(props@, name@, 0) == props@[i as int].answer,
            None => answer_from(props@, name@, 0) == Ok::<Option<Vec<String>>, QueryError>(None),
        },
{
    let mut i: usize = 0;
    while i < props.len()
        invariant
            i <= props@.len(),
            answer_from(props@, name@, 0) == answer_from(props@, name@, i as int),
        decreases props@.len() - i,
    {
        if props[i].name == *name {
            return Some(i);
        }
        i = i + 1;
    }
    None
}

/// A property's first string equals `s`; failures pass through.
pub open spec fn first_is(answer: Result<Option<Vec<String>>, QueryError>, s: Seq<char>) -> Result<bool, QueryError> {
    match answer {
        Err(e) => Err(e),
        Ok(Some(strs)) => Ok(strs@.len() > 0 && strs@[0]@ == s),
        Ok(None) => Ok(false),
    }
}

/// The class part (second string) of `WM_CLASS` equals `s`; failures pass through.
pub open spec fn class_is(answer: Result<Option<Vec<String>>, QueryError>, s: Seq<char>) -> Result<bool, QueryError> {
    match answer {
        Err(e) => Err(e),
        Ok(Some(strs)) => Ok(strs@.len() > 1 && strs@[1]@ == s),
        Ok(None) => Ok(false),
    }
}

/// The title is `WM_NAME`, or `_NET_WM_NAME` where reading `WM_NAME` failed; its
/// first string equals `s`. A title that cannot be read matches nothing.
pub open spec fn title_is(wm_name: Result<Option<Vec<String>>, QueryError>, net_wm_name: Result<Option<Vec<String>>, QueryError>, s: Seq<char>) -> Result<bool, QueryError> {
    let strs = match wm_name {
        Ok(o) => o,
        Err(_) => match net_wm_name {
            Ok(o) => o,
            Err(_) => None,
        },
    };
    match strs {
        Some(v) => Ok(v@.len() > 0 && v@[0]@ == s),
        None => Ok(false),
    }
}

fn first_is_exec(answer: &Result<Option<Vec<String>>, QueryError>, s: &String) -> (r: Result<bool, QueryError>)
    ensures
        r == first_is(*answer, s@),
{
    match answer {
        Err(e) => Err(*e),
        Ok(Some(strs)) => Ok(strs.len() > 0 && strs[0] == *s),
        Ok(None) => Ok(false),
    }
}

fn class_is_exec(answer: &Result<Option<Vec<String>>, QueryError>, s: &String) -> (r: Result<bool, QueryError>)
    ensures
        r == class_is(*answer, s@),
{
    match answer {
        Err(e) => Err(*e),
        Ok(Some(strs)) => Ok(strs.len() > 1 && strs[1] == *s),
        Ok(None) => Ok(false),
    }
}

/// Tests the first string of the property `name` against `s`.
fn string_property(w: &WindowProps, name: &String, s: &String) -> (r: Result<bool, QueryError>)
    ensures
        r == first_is(answer_of(*w, name@), s@),
{
    match answer_index(&w.props, name) {
        Some(i) => first_is_exec(&w.props[i].answer, s),
        None => Ok(false),
    }
}

fn class_name(w: &WindowProps, s: &String) -> (r: Result<bool, QueryError>)
    ensures
        r == class_is(answer_of(*w, atom_spec(KnownAtom::WmClass)), s@),
{
    let name = atom_name(KnownAtom::WmClass);
    match answer_index(&w.props, &name) {
        Some(i) => class_is_exec(&w.props[i].answer, s),
        None => Ok(false),
    }
}

fn title(w: &WindowProps, s: &String) -> (r: Result<bool, QueryError>)
    ensures
        r == title_is(
            answer_of(*w, atom_spec(KnownAtom::WmName)),
            answer_of(*w, atom_spec(KnownAtom::NetWmName)),
            s@,
        ),
{
    let wm_name = atom_name(KnownAtom::WmName);
    let net_wm_name = atom_name(KnownAtom::NetWmName);
    let wi = answer_index(&w.props, &wm_name);
    let ni = answer_index(&w.props, &net_wm_name);
    let wm_ok = match wi {
        Some(i) => w.props[i].answer.is_ok(),
        None => true,
    };
    let strs: Option<&Vec<String>> = if wm_ok {
        match wi {
            Some(i) => match &w.props[i].answer {
                Ok(Some(v)) => Some(v),
                _ => None,
            },
            None => None,
        }
    } else {
        match ni {
            Some(i) => match &w.props[i].answer {
                Ok(Some(v)) => Some(v),
                _ => None,
            },
            None => None,
        }
    };
    match strs {
        Some(v) => Ok(v.len() > 0 && v[0] == *s),
        None => Ok(false),
    }
}

/// A test built from one string: which property the string is compared with.
#[derive(Clone, Debug, PartialEq, Eq)]
pub enum StrQuery {
    /// The window's class name equals the string.
    ClassName,
    /// The window's title equals the string.
    Title,
    /// The named string property equals the string.
    StringProperty(String),
}

/// The primitive `c` built from the string `s`, evaluated on `w`.
pub open spec fn str_query_spec(c: StrQuery, s: Seq<char>, w: WindowProps) -> Result<bool, QueryError> {
    match c {
        StrQuery::ClassName => class_is(answer_of(w, atom_spec(KnownAtom::WmClass)), s),
        StrQuery::Title => title_is(
            answer_of(w, atom_spec(KnownAtom::WmName)),
            answer_of(w, atom_spec(KnownAtom::NetWmName)),
            s,
        ),
        StrQuery::StringProperty(p) => first_is(answer_of(w, p@), s),
    }
}

impl StrQuery {
    /// Runs the primitive built from `s` against `w`.
    pub fn run_with(&self, s: &String, w: &WindowProps) -> (r: Result<bool, QueryError>)
        ensures
            r == str_query_spec(*self, s@, *w),
    {
        match self {
            StrQuery::ClassName => class_name(w, s),
            StrQuery::Title => title(w, s),
            StrQuery::StringProperty(p) => string_property(w, p, s),
        }
    }
}

/// True when the test built from at least one of the strings holds. The strings
/// are tried in order: the first that holds ends the search, and a failure met
/// before that is the result.
#[derive(Clone, Debug, PartialEq, Eq)]
pub struct OneOfQuery {
    pub strs: Vec<String>,
    pub constr: StrQuery,
}

/// `OneOfQuery` over the strings `strs`, evaluated on `w`.
pub open spec fn one_of_spec(strs: Seq<String>, c: StrQuery, w: WindowProps) -> Result<bool, QueryError>
    decreases strs.len(),
{
    if strs.len() == 0 {
        Ok(false)
    } else {
        match str_query_spec(c, strs[0]@, w) {
            Err(e) => Err(e),
            Ok(true) => Ok(true),
            Ok(false) => one_of_spec(strs.drop_first(), c, w),
        }
    }
}

impl OneOfQuery {
    /// A query that holds when `constr` built from one of `strs` holds.
    pub fn new(strs: &[&str], constr: StrQuery) -> (r: OneOfQuery)
        ensures
            r.constr == constr,
            r.strs@.len() == strs@.len(),
            forall|i: int| 0 <= i < strs@.len() ==> #[trigger] r.strs@[i]@ == strs@[i]@,
    {
        let mut out: Vec<String> = Vec::new();
        let mut i: usize = 0;
        while i < strs.len()
            invariant
                i <= strs@.len(),
                out@.len() == i,
                forall|j: int| 0 <= j < i ==> #[trigger] out@[j]@ == strs@[j]@,
            decreases strs@.len() - i,
        {
            out.push(strs[i].to_owned());
            i = i + 1;
        }
        OneOfQuery { strs: out, constr }
    }

    /// Tries the strings in order, stopping at the first test that holds or fails.
    pub fn run(&self, w: &WindowProps) -> (r: Result<bool, QueryError>)
        ensures
            r == one_of_spec(self.strs@, self.constr, *w),
    {
        let mut i: usize = 0;
        assert(self.strs@.skip(0) =~= self.strs@);
        while i < self.strs.len()
            invariant
                i <= self.strs@.len(),
                one_of_spec(self.strs@, self.constr, *w) == one_of_spec(self.strs@.skip(i as int), self.constr, *w),
            decreases self.strs@.len() - i,
        {
            assert(self.strs@.skip(i as int).drop_first() =~= self.strs@.skip(i as int + 1));
            match self.constr.run_with(&self.strs[i], w) {
                Err(e) => return Err(e),
                Ok(true) => return Ok(true),
                Ok(false) => {},
            }
            i = i + 1;
        }
        Ok(false)
    }
}

/// What makes a window a dock: its first window type is the dock or the desktop type.
pub open spec fn dock_spec(w: WindowProps) -> Result<bool, QueryError> {
    let ty = answer_of(w, atom_spec(KnownAtom::NetWmWindowType));
    match first_is(ty, atom_spec(KnownAtom::NetWindowTypeDock)) {
        Err(e) => Err(e),
        Ok(true) => Ok(true),
        Ok(false) => first_is(ty, atom_spec(KnownAtom::NetWindowTypeDesktop)),
    }
}

/// Holds for windows of the dock or desktop type (status bars, trays, backgrounds).
pub struct IsDock;

impl IsDock {
    /// Tests the window type against the dock type, then the desktop type.
    pub fn run(&self, w: &WindowProps) -> (r: Result<bool, QueryError>)
        ensures
            r == dock_spec(*w),
    {
        let ty = atom_name(KnownAtom::NetWmWindowType);
        let dock = atom_name(KnownAtom::NetWindowTypeDock);
        match string_property(w, &ty, &dock) {
            Err(e) => Err(e),
            Ok(true) => Ok(true),
            Ok(false) => {
                let desktop = atom_name(KnownAtom::NetWindowTypeDesktop);
                string_property(w, &ty, &desktop)
            },
        }
    }
}

/// A window sets a user-specified geometry with static gravity and a non-empty
/// size: how short-lived notification windows of some programs show.
pub open spec fn static_hints_spec(w: WindowProps) -> Result<bool, QueryError> {
    match w.static_gravity {
        Err(e) => Err(e),
        Ok(false) => Ok(false),
        Ok(true) => match w.normal_hints {
            Err(e) => Err(e),
            Ok(Some(h)) => Ok(
                match h.user_specified {
                    Some(u) => u.w > 0 && u.h > 0,
                    None => false,
                },
            ),
            Ok(None) => Ok(false),
        },
    }
}

/// A predicate on windows.
#[derive(Debug)]
pub enum Query {
    /// The class name equals the string.
    ClassName(String),
    /// The title equals the string.
    Title(String),
    /// The named string property (first) equals the string (second).
    StringProperty(String, String),
    /// The window is a dock or a desktop.
    IsDock,
    /// The minimum and maximum sizes are equal: the window cannot be resized.
    ConstrainedSizeHints,
    /// User-specified geometry with static gravity.
    StaticSizeHints,
    /// A test built from one of several strings holds.
    OneOf(OneOfQuery),
    /// Both hold; the second is not consulted when the first does not hold.
    And(Box<Query>, Box<Query>),
    /// Either holds; the second is not consulted when the first holds.
    Or(Box<Query>, Box<Query>),
    /// The inner predicate does not hold.
    Not(Box<Query>),
}

/// The value of `q` on `w`: a failure consulted on the way is the result.
pub open spec fn eval(q: Query, w: WindowProps) -> Result<bool, QueryError>
    decreases q,
{
    match q {
        Query::ClassName(s) => str_query_spec(StrQuery::ClassName, s@, w),
        Query::Title(s) => str_query_spec(StrQuery::Title, s@, w),
        Query::StringProperty(p, s) => first_is(answer_of(w, p@), s@),
        Query::IsDock => dock_spec(w),
        Query::ConstrainedSizeHints => match w.normal_hints {
            Err(e) => Err(e),
            Ok(h) => Ok(constrained_spec(h)),
        },
        Query::StaticSizeHints => static_hints_spec(w),
        Query::OneOf(o) => one_of_spec(o.strs@, o.constr, w),
        Query::And(a, b) => match eval(*a, w) {
            Err(e) => Err(e),
            Ok(false) => Ok(false),
            Ok(true) => eval(*b, w),
        },
        Query::Or(a, b) => match eval(*a, w) {
            Err(e) => Err(e),
            Ok(true) => Ok(true),
            Ok(false) => eval(*b, w),
        },
        Query::Not(a) => match eval(*a, w) {
            Err(e) => Err(e),
            Ok(v) => Ok(!v),
        },
    }
}

impl Query {
    pub open spec fn and_spec(self, other: Query) -> Query {
        Query::And(Box::new(self), Box::new(other))
    }

    pub open spec fn or_spec(self, other: Query) -> Query {
        Query::Or(Box::new(self), Box::new(other))
    }

    pub open spec fn not_spec(self) -> Query {
        Query::Not(Box::new(self))
    }

    /// Both `self` and `other` hold.
    pub fn and(self, other: Query) -> (r: Query)
        ensures
            r == self.and_spec(other),
    {
        Query::And(Box::new(self), Box::new(other))
    }

    /// `self` or `other` holds.
    pub fn or(self, other: Query) -> (r: Query)
        ensures
            r == self.or_spec(other),
    {
        Query::Or(Box::new(self), Box::new(other))
    }

    /// `self` does not hold.
    pub fn not(self) -> (r: Query)
        ensures
            r == self.not_spec(),
    {
        Query::Not(Box::new(self))
    }

    /// Evaluates the predicate against `w`, consulting only what its value depends on.
    pub fn run(&self, w: &WindowProps) -> (r: Result<bool, QueryError>)
        ensures
            r == eval(*self, *w),
        decreases self,
    {
        match self {
            Query::ClassName(s) => class_name(w, s),
            Query::Title(s) => title(w, s),
            Query::StringProperty(p, s) => string_property(w, p, s),
            Query::IsDock => IsDock.run(w),
            Query::ConstrainedSizeHints => match &w.normal_hints {
                Err(e) => Err(*e),
                Ok(h) => Ok(is_constrained(h)),
            },
            Query::StaticSizeHints => match w.static_gravity {
                Err(e) => Err(e),
                Ok(false) => Ok(false),
                Ok(true) => match &w.normal_hints {
                    Err(e) => Err(*e),
                    Ok(Some(h)) => Ok(
                        match h.user_specified {
                            Some(u) => u.w > 0 && u.h > 0,
                            None => false,
                        },
                    ),
                    Ok(None) => Ok(false),
                },
            },
            Query::OneOf(o) => o.run(w),
            Query::And(a, b) => match a.run(w) {
                Err(e) => Err(e),
                Ok(false) => Ok(false),
                Ok(true) => b.run(w),
            },
            Query::Or(a, b) => match a.run(w) {
                Err(e) => Err(e),
                Ok(true) => Ok(true),
                Ok(false) => b.run(w),
            },
            Query::Not(a) => match a.run(w) {
                Err(e) => Err(e),
                Ok(v) => Ok(!v),
            },
        }
    }
}

/// `and(p, q)` on a window where `p` does not hold is false, whatever `q` is:
/// even a `q` that would fail on that window is never consulted.
pub proof fn lemma_and_short_circuits(p: Query, q: Query, w: WindowProps)
    requires
        eval(p, w) == Ok::<bool, QueryError>(false),
    ensures
        eval(p.and_spec(q), w) == Ok::<bool, QueryError>(false),
{
}

/// `or(p, q)` on a window where `p` holds is true, whatever `q` is: even a `q`
/// that would fail on that window is never consulted.
pub proof fn lemma_or_short_circuits(p: Query, q: Query, w: WindowProps)
    requires
        eval(p, w) == Ok::<bool, QueryError>(true),
    ensures
        eval(p.or_spec(q), w) == Ok::<bool, QueryError>(true),
{
}

/// Negating twice gives back the predicate, on every window: the same value,
/// and the same failure where it fails.
pub proof fn lemma_not_not(p: Query, w: WindowProps)
    ensures
        eval(p.not_spec().not_spec(), w) == eval(p, w),
{
    let once = p.not_spec();
    assert(eval(once.not_spec(), w) == match eval(once, w) {
        Err(e) => Err(e),
        Ok(v) => Ok::<bool, QueryError>(!v),
    });
}

/// A window whose first window type is the dock or the desktop type is a dock;
/// one with any other type is not.
pub proof fn lemma_dock_classification(w: WindowProps, types: Vec<String>)
    requires
        answer_of(w, atom_spec(KnownAtom::NetWmWindowType)) == Ok::<Option<Vec<String>>, QueryError>(Some(types)),
        types@.len() > 0,
    ensures
        eval(Query::IsDock, w) == Ok::<bool, QueryError>(
            types@[0]@ == atom_spec(KnownAtom::NetWindowTypeDock)
                || types@[0]@ == atom_spec(KnownAtom::NetWindowTypeDesktop),
        ),
{
}

/// Where every test built from the strings can be evaluated, a "one of" query
/// holds exactly when the test built from at least one of the strings holds.
pub proof fn lemma_one_of_any(strs: Seq<String>, c: StrQuery, w: WindowProps)
    requires
        forall|i: int| 0 <= i < strs.len() ==> (#[trigger] str_query_spec(c, strs[i]@, w)).is_ok(),
    ensures
        one_of_spec(strs, c, w) == Ok::<bool, QueryError>(
            exists|i: int| 0 <= i < strs.len() && #[trigger] str_query_spec(c, strs[i]@, w) == Ok::<bool, QueryError>(true),
        ),
    decreases strs.len(),
{
    if strs.len() > 0 {
        let rest = strs.drop_first();
        assert forall|i: int| 0 <= i < rest.len() implies (#[trigger] str_query_spec(c, rest[i]@, w)).is_ok() by {
            assert(rest[i] == strs[i + 1]);
        }
        lemma_one_of_any(rest, c, w);
        assert(str_query_spec(c, strs[0]@, w).is_ok());
        if str_query_spec(c, strs[0]@, w) == Ok::<bool, QueryError>(true) {
            assert(0 <= 0 < strs.len() && str_query_spec(c, strs[0]@, w) == Ok::<bool, QueryError>(true));
        } else {
            if exists|i: int| 0 <= i < strs.len() && #[trigger] str_query_spec(c, strs[i]@, w) == Ok::<bool, QueryError>(true) {
                let i = choose|i: int| 0 <= i < strs.len() && #[trigger] str_query_spec(c, strs[i]@, w) == Ok::<bool, QueryError>(true);
                assert(i > 0);
                assert(rest[i - 1] == strs[i]);
                assert(0 <= i - 1 < rest.len() && str_query_spec(c, rest[i - 1]@, w) == Ok::<bool, QueryError>(true));
            }
            if exists|i: int| 0 <= i < rest.len() && #[trigger] str_query_spec(c, rest[i]@, w) == Ok::<bool, QueryError>(true) {
                let i = choose|i: int| 0 <= i < rest.len() && #[trigger] str_query_spec(c, rest[i]@, w) == Ok::<bool, QueryError>(true);
                assert(rest[i] == strs[i + 1]);
                assert(0 <= i + 1 < strs.len() && str_query_spec(c, strs[i + 1]@, w) == Ok::<bool, QueryError>(true));
            }
        }
    }
}

} // verus!
