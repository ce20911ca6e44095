//! What a conversion yields when the runtime answers truthfully.
//!
//! A [`Foreign`] value stands for a value in the heap of the runtime, as far
//! as the questions of a conversion show it.  [`run`] puts the questions of a
//! conversion to such a value, one after the other, until the conversion ends.
//! The laws below say what comes out, and that no question is put to a value
//! that it does not fit.

use vstd::prelude::*;
use vstd::utf8::{decode_utf8, encode_utf8, valid_utf8};
use crate::convert::{AnswerView, HostView, Query, State, StepView};
use crate::error::BQNCastError;
use crate::tag::{ARRAY_CODE, SCALAR_NUMBER_CODE, ElementKind, RuntimeTag, Target};
use crate::text::{nul_free, until_nul};

verus! {

/// A value of the runtime, as its answers show it.
pub ghost enum Foreign {
    /// A scalar number, with the 64 bits of its double-precision form.
    Number(u64),
    /// An array of numbers: the kind of its elements, and the elements as the
    /// runtime gives them when they are read as double-precision numbers.
    NumberArray(ElementKind, Seq<u64>),
    /// An array of characters: the kind of its elements, and the elements as
    /// the runtime gives them when they are read as 8-bit units.
    CharArray(ElementKind, Seq<u8>),
    /// An array of any other content.
    MixedArray,
    /// A value that is neither number nor array, with its category code.
    Other(i32),
}

impl Foreign {
    /// The value is one that the runtime can hold: the element kind fits the
    /// elements, the length fits a machine word, and the category code of a
    /// value that is neither number nor array is neither of their codes.
    pub open spec fn wf(self) -> bool {
        match self {
            Foreign::Number(_) => true,
            Foreign::NumberArray(kind, items) => kind.numeric() && items.len() <= usize::MAX,
            Foreign::CharArray(kind, units) => kind.character() && units.len() <= usize::MAX,
            Foreign::MixedArray => true,
            Foreign::Other(code) => code != ARRAY_CODE && code != SCALAR_NUMBER_CODE,
        }
    }

    /// The tag that the runtime reports for the value.
    pub open spec fn tag(self) -> RuntimeTag {
        match self {
            Foreign::Number(_) => RuntimeTag::ScalarNumber,
            Foreign::NumberArray(kind, _) => RuntimeTag::Array(kind),
            Foreign::CharArray(kind, _) => RuntimeTag::Array(kind),
            Foreign::MixedArray => RuntimeTag::Array(ElementKind::Unknown),
            Foreign::Other(_) => RuntimeTag::Other,
        }
    }

    /// The category code that the runtime reports for the value.
    pub open spec fn code(self) -> i32 {
        match self {
            Foreign::Number(_) => SCALAR_NUMBER_CODE,
            Foreign::Other(code) => code,
            _ => ARRAY_CODE,
        }
    }

    /// The questions that fit the value.  The category may be asked of every
    /// value; kind and length of an array only; the number of a scalar only;
    /// the elements only of an array that holds elements of the sort asked
    /// for, and only into a buffer of the length of the array.
    pub open spec fn permits(self, query: Query) -> bool {
        match query {
            Query::Category => true,
            Query::ElementKind => self.tag() is Array,
            Query::Bound => self.tag() is Array,
            Query::Scalar => self is Number,
            Query::Numbers(len) => self matches Foreign::NumberArray(_, items) && items.len()
                == len,
            Query::Chars(len) => self matches Foreign::CharArray(_, units) && units.len() == len,
        }
    }

    /// The answer of the runtime to a question that fits the value.  Of the
    /// answer to any other question nothing is known.
    pub open spec fn answer(self, query: Query) -> AnswerView {
        match (query, self) {
            (Query::Category, _) => AnswerView::Category(self.code()),
            (Query::ElementKind, Foreign::NumberArray(kind, _)) => AnswerView::ElementKind(kind),
            (Query::ElementKind, Foreign::CharArray(kind, _)) => AnswerView::ElementKind(kind),
            (Query::ElementKind, Foreign::MixedArray) => AnswerView::ElementKind(
                ElementKind::Unknown,
            ),
            (Query::Bound, Foreign::NumberArray(_, items)) => AnswerView::Bound(
                items.len() as usize,
            ),
            (Query::Bound, Foreign::CharArray(_, units)) => AnswerView::Bound(
                units.len() as usize,
            ),
            (Query::Scalar, Foreign::Number(bits)) => AnswerView::Scalar(bits),
            (Query::Numbers(_), Foreign::NumberArray(_, items)) => AnswerView::Numbers(items),
            (Query::Chars(_), Foreign::CharArray(_, units)) => AnswerView::Chars(units),
            _ => arbitrary(),
        }
    }
}

/// The end of the conversion that stands in `state`, when each of its
/// questions is answered by `value`.
pub open spec fn run(state: State, value: Foreign) -> StepView
    decreases state.stage.answers_left(),
{
    match state.step(value.answer(state.query())) {
        StepView::Ask(next) => if next.stage.answers_left() < state.stage.answers_left() {
            run(next, value)
        } else {
            StepView::Ask(next)
        },
        end => end,
    }
}

/// Every question of the conversion that stands in `state`, from the open
/// one to the last, fits `value`.
pub open spec fn run_is_safe(state: State, value: Foreign) -> bool
    decreases state.stage.answers_left(),
{
    &&& value.permits(state.query())
    &&& match state.step(value.answer(state.query())) {
        StepView::Ask(next) => next.stage.answers_left() < state.stage.answers_left()
            && run_is_safe(next, value),
        _ => true,
    }
}

/// What the conversion of `value` to `target` is to yield: the cast error
/// where the target does not admit the tag of the value; else the number of a
/// scalar, the elements of an array of numbers, or the text that the units
/// of an array of characters spell in UTF-8.
pub open spec fn converted(target: Target, value: Foreign) -> StepView {
    if !target.admits(value.tag()) {
        StepView::Done(Err(BQNCastError))
    } else {
        match value {
            Foreign::Number(bits) => StepView::Done(Ok(HostView::Number(bits))),
            Foreign::NumberArray(_, items) => StepView::Done(Ok(HostView::Numbers(items))),
            Foreign::CharArray(_, units) => if valid_utf8(units) {
                StepView::Done(Ok(HostView::Text(decode_utf8(units))))
            } else {
                StepView::Undecodable
            },
            _ => StepView::Done(Err(BQNCastError)),
        }
    }
}

/// A conversion, begun and answered truthfully, ends with what [`converted`]
/// says: it succeeds exactly on the tags that its target admits, and then
/// yields what the value holds.
pub proof fn lemma_run_converts(target: Target, value: Foreign)
    requires
        value.wf(),
    ensures
        run(State::initial(target), value) == converted(target, value),
{
    reveal_with_fuel(run, 5);
}

/// A conversion puts no question to a value that the value does not fit:
/// it asks kind and length of arrays only, and reads only what the runtime
/// has reported to be there, into a buffer of the reported length.
pub proof fn lemma_run_is_safe(target: Target, value: Foreign)
    requires
        value.wf(),
    ensures
        run_is_safe(State::initial(target), value),
{
    reveal_with_fuel(run_is_safe, 5);
}

/// A conversion ends; it never stays on a question.
pub proof fn lemma_run_ends(target: Target, value: Foreign)
    requires
        value.wf(),
    ensures
        !(run(State::initial(target), value) is Ask),
{
    lemma_run_converts(target, value);
}

/// A number that was made into a scalar of the runtime converts back to the
/// same bits.
pub proof fn lemma_number_round_trip(bits: u64)
    ensures
        run(State::initial(Target::Number), Foreign::Number(bits)) == StepView::Done(
            Ok(HostView::Number(bits)),
        ),
{
    lemma_run_converts(Target::Number, Foreign::Number(bits));
}

/// Text without a zero byte, made into an array of characters from its
/// terminated UTF-8 bytes, converts back to the same text.
pub proof fn lemma_text_round_trip(text: Seq<char>, kind: ElementKind)
    requires
        kind.character(),
        nul_free(encode_utf8(text)),
        encode_utf8(text).len() <= usize::MAX,
    ensures
        run(
            State::initial(Target::Text),
            Foreign::CharArray(kind, until_nul(encode_utf8(text).push(0u8))),
        ) == StepView::Done(Ok(HostView::Text(text))),
{
    crate::text::lemma_text_survives(text);
    crate::text::lemma_until_nul_of_terminated(encode_utf8(text));
    lemma_run_converts(
        Target::Text,
        Foreign::CharArray(kind, until_nul(encode_utf8(text).push(0u8))),
    );
}

/// Numbers that were made into an array of the runtime convert back to the
/// same numbers, one for one.
pub proof fn lemma_numbers_round_trip(items: Seq<u64>, kind: ElementKind)
    requires
        kind.numeric(),
        items.len() <= usize::MAX,
    ensures
        run(State::initial(Target::Numbers), Foreign::NumberArray(kind, items))
            == StepView::Done(Ok(HostView::Numbers(items))),
{
    lemma_run_converts(Target::Numbers, Foreign::NumberArray(kind, items));
}

/// A scalar number converts neither to text nor to a sequence of numbers, and
/// no array converts to a single number: each ends with the cast error.
pub proof fn lemma_mismatch_fails(bits: u64, array: Foreign)
    requires
        array.wf(),
        array.tag() is Array,
    ensures
        run(State::initial(Target::Text), Foreign::Number(bits)) == StepView::Done(
            Err::<HostView, BQNCastError>(BQNCastError),
        ),
        run(State::initial(Target::Numbers), Foreign::Number(bits)) == StepView::Done(
            Err::<HostView, BQNCastError>(BQNCastError),
        ),
        run(State::initial(Target::Number), array) == StepView::Done(
            Err::<HostView, BQNCastError>(BQNCastError),
        ),
{
    lemma_run_converts(Target::Text, Foreign::Number(bits));
    lemma_run_converts(Target::Numbers, Foreign::Number(bits));
    lemma_run_converts(Target::Number, array);
}

/// An array converts only to the host type that reads its element kind: an
/// array of the wrong kind ends with the cast error and is not read.
pub proof fn lemma_wrong_kind_fails(target: Target, value: Foreign)
    requires
        value.wf(),
        value.tag() matches RuntimeTag::Array(kind) && !target.reads(kind),
    ensures
        run(State::initial(target), value) == StepView::Done(
            Err::<HostView, BQNCastError>(BQNCastError),
        ),
{
    lemma_run_converts(target, value);
}

} // verus!
