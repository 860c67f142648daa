//! Reading the list of generations of a system profile.
//!
//! The list is written for people: one generation per line, as a number, a
//! date, a time, and the word `(current)` behind the one that is in use.
//! Lines that do not read as a generation are passed over, but exactly one
//! generation has to be marked as current, since that is the one a failed
//! deployment goes back to.

use crate::text::{
    lines, parse_u32, spec_parse_u32, spec_trim, split_lines, split_words, texts, trim, words,
};
use itertools::{ExactlyOneError, Itertools};
use vstd::prelude::*;
use vstd::std_specs::iter::IteratorSpec;

verus! {

/// One generation of a profile.
#[derive(Clone, Debug, PartialEq, Eq)]
pub struct Generation {
    pub id: u32,
    pub current: bool,
    pub datetime: String,
}

/// A generation as plain values.
pub struct GenerationView {
    pub id: u32,
    pub current: bool,
    pub datetime: Seq<char>,
}

impl View for Generation {
    type V = GenerationView;

    open spec fn view(&self) -> GenerationView {
        GenerationView { id: self.id, current: self.current, datetime: self.datetime@ }
    }
}

/// The generations that a list holds, as plain values.
pub open spec fn generation_views(v: Seq<Generation>) -> Seq<GenerationView> {
    Seq::new(v.len(), |i: int| v[i]@)
}

/// Why a list names no generation to go back to.
#[derive(Clone, Copy, Debug, PartialEq, Eq, Structural)]
pub enum InspectError {
    /// More than one generation is marked as current.
    MalformedListing,
    /// No generation is marked as current.
    NoCurrentGeneration,
}

impl InspectError {
    pub open spec fn spec_message(self) -> Seq<char> {
        match self {
            InspectError::MalformedListing => "bad list-generations output"@,
            InspectError::NoCurrentGeneration => "failed to find generation"@,
        }
    }

    /// The error in words.
    pub fn message(&self) -> (r: &'static str)
        ensures
            r@ == self.spec_message(),
    {
        match self {
            InspectError::MalformedListing => "bad list-generations output",
            InspectError::NoCurrentGeneration => "failed to find generation",
        }
    }
}

/// What one line of the list turned out to be.
#[derive(Clone, Debug, PartialEq, Eq)]
pub enum Line {
    /// Nothing but white space.
    Blank,
    /// Not a generation: too few words, a first word that is no number, or a
    /// fourth word other than `(current)`.
    Rejected,
    /// A generation; `trailing` says that more words followed it.
    Accepted { generation: Generation, trailing: bool },
}

/// A line as plain values.
pub enum LineView {
    Blank,
    Rejected,
    Accepted { generation: GenerationView, trailing: bool },
}

impl View for Line {
    type V = LineView;

    open spec fn view(&self) -> LineView {
        match *self {
            Line::Blank => LineView::Blank,
            Line::Rejected => LineView::Rejected,
            Line::Accepted { generation, trailing } => LineView::Accepted {
                generation: generation@,
                trailing,
            },
        }
    }
}

/// Something in the list that a person should look at.
#[derive(Clone, Debug, PartialEq, Eq)]
pub enum Warning {
    /// A line that was passed over because it does not read as a generation.
    BadGeneration { line: String },
    /// A line that was taken as a generation although more text followed it.
    UnexpectedText { line: String },
}

/// A warning as plain values.
pub enum WarningView {
    BadGeneration { line: Seq<char> },
    UnexpectedText { line: Seq<char> },
}

impl View for Warning {
    type V = WarningView;

    open spec fn view(&self) -> WarningView {
        match *self {
            Warning::BadGeneration { line } => WarningView::BadGeneration { line: line@ },
            Warning::UnexpectedText { line } => WarningView::UnexpectedText { line: line@ },
        }
    }
}

/// The warnings that a list holds, as plain values.
pub open spec fn warning_views(v: Seq<Warning>) -> Seq<WarningView> {
    Seq::new(v.len(), |i: int| v[i]@)
}

/// The generations of a list, and what was found wrong with its lines.
#[derive(Clone, Debug, PartialEq, Eq)]
pub struct Listing {
    pub generations: Vec<Generation>,
    pub warnings: Vec<Warning>,
}

/// The date and the time of a generation as one text.
pub open spec fn spec_datetime(date: Seq<char>, time: Seq<char>) -> Seq<char> {
    date + " "@ + time
}

/// What a line of the list is, going by its words: the number, the date, the
/// time, and after them nothing or `(current)`.
pub open spec fn spec_parse_line(line: Seq<char>) -> LineView {
    let w = words(line);
    if w.len() == 0 {
        LineView::Blank
    } else if w.len() < 3 {
        LineView::Rejected
    } else {
        match spec_parse_u32(w[0]) {
            None => LineView::Rejected,
            Some(id) => if w.len() == 3 {
                LineView::Accepted {
                    generation: GenerationView {
                        id,
                        current: false,
                        datetime: spec_datetime(w[1], w[2]),
                    },
                    trailing: false,
                }
            } else if w[3] == "(current)"@ {
                LineView::Accepted {
                    generation: GenerationView {
                        id,
                        current: true,
                        datetime: spec_datetime(w[1], w[2]),
                    },
                    trailing: w.len() > 4,
                }
            } else {
                LineView::Rejected
            },
        }
    }
}

/// The generations that the lines `ls` hold, in order.
pub open spec fn generations_of(ls: Seq<Seq<char>>) -> Seq<GenerationView>
    decreases ls.len(),
{
    if ls.len() == 0 {
        Seq::empty()
    } else {
        let before = generations_of(ls.drop_last());
        match spec_parse_line(ls.last()) {
            LineView::Accepted { generation, .. } => before.push(generation),
            _ => before,
        }
    }
}

/// The warnings that the lines `ls` give rise to, in order. Each carries its
/// line without the white space around it.
pub open spec fn warnings_of(ls: Seq<Seq<char>>) -> Seq<WarningView>
    decreases ls.len(),
{
    if ls.len() == 0 {
        Seq::empty()
    } else {
        let before = warnings_of(ls.drop_last());
        match spec_parse_line(ls.last()) {
            LineView::Blank => before,
            LineView::Rejected => before.push(
                WarningView::BadGeneration { line: spec_trim(ls.last()) },
            ),
            LineView::Accepted { trailing, .. } => if trailing {
                before.push(WarningView::UnexpectedText { line: spec_trim(ls.last()) })
            } else {
                before
            },
        }
    }
}

/// Those of `gs` that are marked as current, in order.
pub open spec fn currents(gs: Seq<GenerationView>) -> Seq<GenerationView>
    decreases gs.len(),
{
    if gs.len() == 0 {
        Seq::empty()
    } else if gs.last().current {
        currents(gs.drop_last()).push(gs.last())
    } else {
        currents(gs.drop_last())
    }
}

/// The one generation of `gs` that is marked as current.
pub open spec fn spec_select_current(gs: Seq<GenerationView>) -> Result<
    GenerationView,
    InspectError,
> {
    let c = currents(gs);
    if c.len() == 0 {
        Err(InspectError::NoCurrentGeneration)
    } else if c.len() == 1 {
        Ok(c[0])
    } else {
        Err(InspectError::MalformedListing)
    }
}

/// The current generation that the list `listing` names.
pub open spec fn spec_current_generation(listing: Seq<char>) -> Result<
    GenerationView,
    InspectError,
> {
    spec_select_current(generations_of(lines(listing)))
}

/// How many of `gs` are marked as current, and which comes first.
proof fn lemma_currents(gs: Seq<GenerationView>)
    ensures
        currents(gs).len() == 0 <==> forall|i: int| 0 <= i < gs.len() ==> !(#[trigger] gs[i]).current,
        currents(gs).len() >= 1 ==> exists|i: int|
            0 <= i < gs.len() && (#[trigger] gs[i]).current && currents(gs)[0] == gs[i],
        currents(gs).len() >= 2 <==> exists|i: int, j: int|
            0 <= i < j < gs.len() && (#[trigger] gs[i]).current && (#[trigger] gs[j]).current,
    decreases gs.len(),
{
    if gs.len() > 0 {
        let init = gs.drop_last();
        let last = gs.len() - 1;
        lemma_currents(init);
        assert(forall|i: int| 0 <= i < init.len() ==> init[i] == gs[i]);
        if gs[last].current {
            if currents(init).len() >= 1 {
                let i = choose|i: int|
                    0 <= i < init.len() && (#[trigger] init[i]).current && currents(init)[0]
                        == init[i];
                assert(gs[i].current && gs[last].current && i < last);
                assert(currents(gs)[0] == gs[i]);
            } else {
                assert(currents(gs)[0] == gs[last]);
                assert forall|i: int, j: int|
                    0 <= i < j < gs.len() && (#[trigger] gs[i]).current
                        implies !(#[trigger] gs[j]).current by {
                    assert(!init[i].current);
                }
            }
        } else {
            if currents(init).len() >= 1 {
                let i = choose|i: int|
                    0 <= i < init.len() && (#[trigger] init[i]).current && currents(init)[0]
                        == init[i];
                assert(gs[i].current);
            }
            if currents(init).len() >= 2 {
                let (i, j) = choose|i: int, j: int|
                    0 <= i < j < init.len() && (#[trigger] init[i]).current
                        && (#[trigger] init[j]).current;
                assert(gs[i].current && gs[j].current);
            } else {
                assert forall|i: int, j: int|
                    0 <= i < j < gs.len() && (#[trigger] gs[i]).current
                        implies !(#[trigger] gs[j]).current by {
                    if j < last {
                        assert(init[i].current);
                        assert(!init[j].current);
                    }
                }
            }
        }
    }
}

/// Exactly one generation has to be marked as current. If none of `gs` is,
/// there is `NoCurrentGeneration`; if two of them are, there is
/// `MalformedListing`; and if one is and no other, it is the one selected.
pub proof fn law_exactly_one_current(gs: Seq<GenerationView>)
    ensures
        spec_select_current(gs) == Err::<GenerationView, InspectError>(
            InspectError::NoCurrentGeneration,
        ) <==> forall|i: int| 0 <= i < gs.len() ==> !(#[trigger] gs[i]).current,
        spec_select_current(gs) == Err::<GenerationView, InspectError>(
            InspectError::MalformedListing,
        ) <==> exists|i: int, j: int|
            0 <= i < j < gs.len() && (#[trigger] gs[i]).current && (#[trigger] gs[j]).current,
        forall|i: int|
            0 <= i < gs.len() && (#[trigger] gs[i]).current && (forall|j: int|
                0 <= j < gs.len() && j != i ==> !(#[trigger] gs[j]).current)
                ==> spec_select_current(gs) == Ok::<GenerationView, InspectError>(gs[i]),
{
    lemma_currents(gs);
    assert forall|i: int|
        0 <= i < gs.len() && (#[trigger] gs[i]).current && (forall|j: int|
            0 <= j < gs.len() && j != i ==> !(#[trigger] gs[j]).current)
            implies spec_select_current(gs) == Ok::<GenerationView, InspectError>(gs[i]) by {
        let k = choose|k: int|
            0 <= k < gs.len() && (#[trigger] gs[k]).current && currents(gs)[0] == gs[k];
        assert(k == i);
        if currents(gs).len() >= 2 {
            let (a, b) = choose|a: int, b: int|
                0 <= a < b < gs.len() && (#[trigger] gs[a]).current && (#[trigger] gs[b]).current;
            assert(a == i && b == i);
        }
    }
}

/// `itertools::ExactlyOneError`, the iterator that `at_most_one` hands back
/// in place of a result. Nothing is said of what it holds.
#[verifier::external_type_specification]
#[verifier::external_body]
#[verifier::reject_recursive_types(I)]
pub struct ExExactlyOneError<I: Iterator>(ExactlyOneError<I>);

/// What `at_most_one` hands back on a list with more than one item.
pub type TooMany = ExactlyOneError<std::vec::IntoIter<Generation>>;

/// `Itertools::at_most_one` on the items of `items`, in order: without an
/// item it gives `Ok(None)`, with one item `Ok` of that item, and with more
/// an error.
#[verifier::external_body]
fn at_most_one(items: Vec<Generation>) -> (r: Result<Option<Generation>, TooMany>)
    ensures
        match r {
            Ok(None) => items@.len() == 0,
            Ok(Some(g)) => items@.len() == 1 && g == items@[0],
            Err(_) => items@.len() >= 2,
        },
{
    items.into_iter().at_most_one()
}

/// Reads one line of the list.
pub fn parse_line(line: &str) -> (r: Line)
    ensures
        r@ == spec_parse_line(line@),
{
    let w = split_words(line);
    if w.len() == 0 {
        return Line::Blank;
    }
    if w.len() < 3 {
        return Line::Rejected;
    }
    assert(texts(w@)[0] == w@[0]@);
    assert(texts(w@)[1] == w@[1]@);
    assert(texts(w@)[2] == w@[2]@);
    let id = match parse_u32(w[0].as_str()) {
        Some(id) => id,
        None => {
            return Line::Rejected;
        },
    };
    let current = if w.len() > 3 {
        assert(texts(w@)[3] == w@[3]@);
        let marker = "(current)".to_owned();
        if w[3] == marker {
            true
        } else {
            return Line::Rejected;
        }
    } else {
        false
    };
    let datetime = w[1].clone().concat(" ").concat(w[2].as_str());
    Line::Accepted { generation: Generation { id, current, datetime }, trailing: w.len() > 4 }
}

/// Reads the list: the generations it holds, and a warning for each line
/// that was passed over or that held more than a generation.
pub fn parse_listing(listing: &str) -> (r: Listing)
    ensures
        generation_views(r.generations@) == generations_of(lines(listing@)),
        warning_views(r.warnings@) == warnings_of(lines(listing@)),
{
    let ls = split_lines(listing);
    let mut generations: Vec<Generation> = Vec::new();
    let mut warnings: Vec<Warning> = Vec::new();
    let mut i: usize = 0;
    assert(texts(ls@).take(0) =~= Seq::empty());
    assert(generation_views(generations@) =~= Seq::empty());
    assert(warning_views(warnings@) =~= Seq::empty());
    while i < ls.len()
        invariant
            i <= ls.len(),
            texts(ls@) == lines(listing@),
            generation_views(generations@) == generations_of(texts(ls@).take(i as int)),
            warning_views(warnings@) == warnings_of(texts(ls@).take(i as int)),
        decreases ls.len() - i,
    {
        let ghost gs = generations@;
        let ghost ws = warnings@;
        proof {
            let next = texts(ls@).take(i + 1);
            assert(next.drop_last() =~= texts(ls@).take(i as int));
            assert(next.last() == ls@[i as int]@);
        }
        match parse_line(ls[i].as_str()) {
            Line::Blank => {},
            Line::Rejected => {
                warnings.push(Warning::BadGeneration { line: trim(ls[i].as_str()) });
                assert(warning_views(warnings@) =~= warning_views(ws).push(
                    WarningView::BadGeneration { line: spec_trim(ls@[i as int]@) },
                ));
            },
            Line::Accepted { generation, trailing } => {
                if trailing {
                    warnings.push(Warning::UnexpectedText { line: trim(ls[i].as_str()) });
                    assert(warning_views(warnings@) =~= warning_views(ws).push(
                        WarningView::UnexpectedText { line: spec_trim(ls@[i as int]@) },
                    ));
                }
                let ghost g = generation@;
                generations.push(generation);
                assert(generation_views(generations@) =~= generation_views(gs).push(g));
            },
        }
        i += 1;
    }
    assert(texts(ls@).take(i as int) =~= texts(ls@));
    Listing { generations, warnings }
}

/// Picks the generation that is marked as current. None is
/// `NoCurrentGeneration`, more than one is `MalformedListing`.
pub fn select_current(generations: Vec<Generation>) -> (r: Result<Generation, InspectError>)
    ensures
        match spec_select_current(generation_views(generations@)) {
            Ok(g) => r matches Ok(found) && found@ == g,
            Err(e) => r == Err::<Generation, InspectError>(e),
        },
{
    let ghost all = generation_views(generations@);
    let mut marked: Vec<Generation> = Vec::new();
    assert(all.take(0) =~= Seq::empty());
    assert(generation_views(marked@) =~= Seq::empty());
    for g in it: generations
        invariant
            generation_views(it.seq()) == all,
            generation_views(marked@) == currents(all.take(it.index() as int)),
    {
        let ghost before = marked@;
        proof {
            let next = all.take(it.index() + 1);
            assert(next.drop_last() =~= all.take(it.index() as int));
            assert(next.last() == g@);
        }
        if g.current {
            marked.push(g);
            assert(generation_views(marked@) =~= generation_views(before).push(g@));
        }
    }
    assert(all.take(all.len() as int) =~= all);
    assert(generation_views(marked@).len() == marked@.len());
    match at_most_one(marked) {
        Ok(Some(g)) => {
            assert(g@ == generation_views(marked@)[0]);
            Ok(g)
        },
        Ok(None) => Err(InspectError::NoCurrentGeneration),
        Err(_) => Err(InspectError::MalformedListing),
    }
}

/// Finds in the printed list of generations the one that is in use.
pub fn get_current_generation(listing: &str) -> (r: Result<Generation, InspectError>)
    ensures
        match spec_current_generation(listing@) {
            Ok(g) => r matches Ok(found) && found@ == g,
            Err(e) => r == Err::<Generation, InspectError>(e),
        },
{
    let parsed = parse_listing(listing);
    select_current(parsed.generations)
}

} // verus!
