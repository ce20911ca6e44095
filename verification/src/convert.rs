//! The conversion of one foreign value to a host value, as a dialogue.
//!
//! A [`Conversion`] never touches the runtime.  It names the next question to
//! put to the runtime about the value; the driver puts it and hands the answer
//! to [`Conversion::advance`], which either names the next question or ends the
//! conversion.  Nothing is remembered from one conversion to the next: each
//! begins by asking for the category again.

use vstd::prelude::*;
use vstd::utf8::{decode_utf8, valid_utf8};
use crate::error::BQNCastError;
use crate::tag::{Category, ElementKind, RuntimeTag, Target};
use crate::text::decode;

verus! {

/// A question to the runtime about the value under conversion.
#[derive(Clone, Copy, Debug, PartialEq, Eq, Structural)]
pub enum Query {
    /// The category code of the value.
    Category,
    /// The element kind of the array.
    ElementKind,
    /// The number of elements of the array.
    Bound,
    /// The number that the scalar holds.
    Scalar,
    /// All elements of the array as double-precision numbers, read into a
    /// buffer of the given length.
    Numbers(usize),
    /// All elements of the array as 8-bit units, read into a buffer of the
    /// given length.
    Chars(usize),
}

/// What the runtime said to a question.  A number travels as the 64 bits of
/// its double-precision form.
#[derive(Debug, PartialEq, Eq)]
pub enum Answer {
    /// To [`Query::Category`].
    Category(i32),
    /// To [`Query::ElementKind`].
    ElementKind(ElementKind),
    /// To [`Query::Bound`].
    Bound(usize),
    /// To [`Query::Scalar`].
    Scalar(u64),
    /// To [`Query::Numbers`]: the filled buffer.
    Numbers(Vec<u64>),
    /// To [`Query::Chars`]: the filled buffer.
    Chars(Vec<u8>),
}

/// An [`Answer`] as a mathematical value.
pub ghost enum AnswerView {
    Category(i32),
    ElementKind(ElementKind),
    Bound(usize),
    Scalar(u64),
    Numbers(Seq<u64>),
    Chars(Seq<u8>),
}

impl View for Answer {
    type V = AnswerView;

    open spec fn view(&self) -> AnswerView {
        match *self {
            Answer::Category(code) => AnswerView::Category(code),
            Answer::ElementKind(kind) => AnswerView::ElementKind(kind),
            Answer::Bound(len) => AnswerView::Bound(len),
            Answer::Scalar(bits) => AnswerView::Scalar(bits),
            Answer::Numbers(items) => AnswerView::Numbers(items@),
            Answer::Chars(units) => AnswerView::Chars(units@),
        }
    }
}

/// The host value that a conversion yields.  A number is given as the 64 bits
/// of its double-precision form.
#[derive(Debug, PartialEq, Eq)]
pub enum HostValue {
    /// From [`Target::Number`].
    Number(u64),
    /// From [`Target::Text`].
    Text(String),
    /// From [`Target::Numbers`].
    Numbers(Vec<u64>),
}

/// A [`HostValue`] as a mathematical value.
pub ghost enum HostView {
    Number(u64),
    Text(Seq<char>),
    Numbers(Seq<u64>),
}

impl View for HostValue {
    type V = HostView;

    open spec fn view(&self) -> HostView {
        match *self {
            HostValue::Number(bits) => HostView::Number(bits),
            HostValue::Text(text) => HostView::Text(text@),
            HostValue::Numbers(items) => HostView::Numbers(items@),
        }
    }
}

/// How far a conversion has come: the answer that it waits for.
#[derive(Clone, Copy, Debug, PartialEq, Eq, Structural)]
pub enum Stage {
    /// Nothing is known of the value yet.
    Category,
    /// The value is an array; its element kind is not known yet.
    ElementKind,
    /// The element kind fits; the length is not known yet.
    Bound,
    /// The value may be read: a scalar, or an array of the given length.
    Payload(usize),
}

/// The state of a conversion as a mathematical value.
pub ghost struct State {
    pub target: Target,
    pub stage: Stage,
}

/// What one step of a conversion leads to, as a mathematical value.
pub ghost enum StepView {
    Ask(State),
    Done(Result<HostView, BQNCastError>),
    Undecodable,
}

impl HostView {
    /// The host type that the value is of.
    pub open spec fn target(self) -> Target {
        match self {
            HostView::Number(_) => Target::Number,
            HostView::Text(_) => Target::Text,
            HostView::Numbers(_) => Target::Numbers,
        }
    }
}

impl Stage {
    /// The number of answers that a conversion in this stage can still take.
    pub open spec fn answers_left(self) -> nat {
        match self {
            Stage::Category => 4,
            Stage::ElementKind => 3,
            Stage::Bound => 2,
            Stage::Payload(_) => 1,
        }
    }
}

impl State {
    /// The state in which every conversion to `target` begins.
    pub open spec fn initial(target: Target) -> State {
        State { target, stage: Stage::Category }
    }

    /// The question that is open in this state.
    pub open spec fn query(self) -> Query {
        match self.stage {
            Stage::Category => Query::Category,
            Stage::ElementKind => Query::ElementKind,
            Stage::Bound => Query::Bound,
            Stage::Payload(len) => match self.target {
                Target::Number => Query::Scalar,
                Target::Text => Query::Chars(len),
                Target::Numbers => Query::Numbers(len),
            },
        }
    }

    /// Whether `answer` answers the open question: it is of the kind asked
    /// for, and a buffer has the length asked for.
    pub open spec fn awaits(self, answer: AnswerView) -> bool {
        match (self.query(), answer) {
            (Query::Category, AnswerView::Category(_)) => true,
            (Query::ElementKind, AnswerView::ElementKind(_)) => true,
            (Query::Bound, AnswerView::Bound(_)) => true,
            (Query::Scalar, AnswerView::Scalar(_)) => true,
            (Query::Numbers(len), AnswerView::Numbers(items)) => items.len() == len,
            (Query::Chars(len), AnswerView::Chars(units)) => units.len() == len,
            _ => false,
        }
    }

    /// The step that `answer` leads to.
    ///
    /// An answer to another question than the open one changes nothing.  A
    /// category or an element kind that the target does not admit ends the
    /// conversion with the cast error, before anything is read.  Otherwise
    /// the conversion moves on: from the category of a scalar to its number,
    /// from the category of an array to its element kind, then to its length,
    /// then to its elements.  What is read is the result; characters are read
    /// as UTF-8, and units that are no UTF-8 end the conversion as undecodable.
    pub open spec fn step(self, answer: AnswerView) -> StepView {
        if !self.awaits(answer) {
            StepView::Ask(self)
        } else {
            match answer {
                AnswerView::Category(code) => match Category::of_code(code) {
                    Category::ScalarNumber => if self.target.admits(RuntimeTag::ScalarNumber) {
                        StepView::Ask(State { target: self.target, stage: Stage::Payload(0) })
                    } else {
                        StepView::Done(Err(BQNCastError))
                    },
                    Category::Array => if self.target.category() == Category::Array {
                        StepView::Ask(State { target: self.target, stage: Stage::ElementKind })
                    } else {
                        StepView::Done(Err(BQNCastError))
                    },
                    Category::Other => StepView::Done(Err(BQNCastError)),
                },
                AnswerView::ElementKind(kind) => if self.target.admits(RuntimeTag::Array(kind)) {
                    StepView::Ask(State { target: self.target, stage: Stage::Bound })
                } else {
                    StepView::Done(Err(BQNCastError))
                },
                AnswerView::Bound(len) => StepView::Ask(
                    State { target: self.target, stage: Stage::Payload(len) },
                ),
                AnswerView::Scalar(bits) => StepView::Done(Ok(HostView::Number(bits))),
                AnswerView::Numbers(items) => StepView::Done(Ok(HostView::Numbers(items))),
                AnswerView::Chars(units) => if valid_utf8(units) {
                    StepView::Done(Ok(HostView::Text(decode_utf8(units))))
                } else {
                    StepView::Undecodable
                },
            }
        }
    }
}

/// An answer to the open question brings a conversion nearer to its end,
/// and never changes what it is to produce: after four answers at most it
/// has ended.
pub proof fn lemma_step_progress(state: State, answer: AnswerView)
    requires
        state.awaits(answer),
    ensures
        state.step(answer) matches StepView::Ask(next) ==> {
            &&& next.target == state.target
            &&& next.stage.answers_left() < state.stage.answers_left()
        },
{
}

/// A conversion that succeeds yields a value of the host type that it was
/// begun for, and yields it only from a state that waits for the elements.
pub proof fn lemma_result_fits_target(state: State, answer: AnswerView)
    requires
        state.step(answer) is Done,
        state.step(answer)->Done_0 is Ok,
    ensures
        state.step(answer)->Done_0->Ok_0.target() == state.target,
        state.stage is Payload,
{
}

/// A conversion under way.  It is made by [`Conversion::begin`] and moved on
/// by [`Conversion::advance`] only, so it waits for the elements of a value
/// only after the runtime has reported a tag that the target admits.
#[derive(Clone, Copy, Debug, PartialEq, Eq)]
pub struct Conversion {
    target: Target,
    stage: Stage,
}

impl View for Conversion {
    type V = State;

    closed spec fn view(&self) -> State {
        State { target: self.target, stage: self.stage }
    }
}

/// What one step of a conversion leads to.
#[derive(Debug, PartialEq, Eq)]
pub enum Step {
    /// The conversion goes on: its open question is to be put next.
    Ask(Conversion),
    /// The conversion has ended, with the host value or with the cast error.
    Done(Result<HostValue, BQNCastError>),
    /// The conversion has ended on character data that is no UTF-8.  This is
    /// no mismatch of types but damaged data.
    Undecodable,
}

impl View for Step {
    type V = StepView;

    open spec fn view(&self) -> StepView {
        match *self {
            Step::Ask(conversion) => StepView::Ask(conversion@),
            Step::Done(Ok(value)) => StepView::Done(Ok(value@)),
            Step::Done(Err(error)) => StepView::Done(Err(error)),
            Step::Undecodable => StepView::Undecodable,
        }
    }
}

impl Conversion {
    /// Begins the conversion of a value to `target`; the first question is
    /// for the category.
    pub fn begin(target: Target) -> (conversion: Conversion)
        ensures
            conversion@ == State::initial(target),
    {
        Conversion { target, stage: Stage::Category }
    }

    /// The host type that the conversion is to produce.
    pub fn target(&self) -> (target: Target)
        ensures
            target == self@.target,
    {
        self.target
    }

    /// The question that the driver is to put to the runtime next.
    pub fn pending(&self) -> (query: Query)
        ensures
            query == self@.query(),
    {
        match self.stage {
            Stage::Category => Query::Category,
            Stage::ElementKind => Query::ElementKind,
            Stage::Bound => Query::Bound,
            Stage::Payload(len) => match self.target {
                Target::Number => Query::Scalar,
                Target::Text => Query::Chars(len),
                Target::Numbers => Query::Numbers(len),
            },
        }
    }

    /// Takes the answer of the runtime to the open question and decides how
    /// the conversion goes on; [`State::step`] says how.
    pub fn advance(self, answer: Answer) -> (next: Step)
        ensures
            next@ == self@.step(answer@),
    {
        let ended = Step::Done(Err(BQNCastError));
        match (self.pending(), answer) {
            (Query::Category, Answer::Category(code)) => match Category::from_code(code) {
                Category::ScalarNumber => if self.target.accepts(RuntimeTag::ScalarNumber) {
                    Step::Ask(Conversion { target: self.target, stage: Stage::Payload(0) })
                } else {
                    ended
                },
                Category::Array => match self.target {
                    Target::Number => ended,
                    _ => Step::Ask(Conversion { target: self.target, stage: Stage::ElementKind }),
                },
                Category::Other => ended,
            },
            (Query::ElementKind, Answer::ElementKind(kind)) => if self.target.accepts(
                RuntimeTag::classify(Category::Array, kind),
            ) {
                Step::Ask(Conversion { target: self.target, stage: Stage::Bound })
            } else {
                ended
            },
            (Query::Bound, Answer::Bound(len)) => Step::Ask(
                Conversion { target: self.target, stage: Stage::Payload(len) },
            ),
            (Query::Scalar, Answer::Scalar(bits)) => Step::Done(Ok(HostValue::Number(bits))),
            (Query::Numbers(len), Answer::Numbers(items)) => if items.len() == len {
                Step::Done(Ok(HostValue::Numbers(items)))
            } else {
                Step::Ask(self)
            },
            (Query::Chars(len), Answer::Chars(units)) => if units.len() == len {
                match decode(units) {
                    Some(text) => Step::Done(Ok(HostValue::Text(text))),
                    None => Step::Undecodable,
                }
            } else {
                Step::Ask(self)
            },
            _ => Step::Ask(self),
        }
    }
}

} // verus!
