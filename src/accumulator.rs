use vstd::prelude::*;
use crate::game::{evaluate_spec, Game, GuessOutcome};
use crate::number::{all_digits, is_digit, number_or_zero, parse_chars};
use crate::symbol::Symbol;

verus! {

/// The most digits a guess can have.
pub const ANSWER_LENGTH: usize = 4;

/// What the display has to do after a symbol was taken in.
#[derive(PartialEq, Eq, Structural, Clone, Copy, Debug)]
pub enum Response {
    /// Nothing changes (submit with no digits).
    Unchanged,
    /// The answer line shows the digits again, blank-padded.
    Answer,
    /// A digit came in on a full answer: the display is cleared and the digits with it.
    Reset,
    /// The guess was judged: the title shows the outcome and the answer line is blanked.
    Judged(GuessOutcome),
}

/// The character of a digit value.
pub open spec fn digit_char(d: u8) -> char {
    ((d + 48) as u8) as char
}

/// The digits after one symbol.
pub open spec fn next_answer(answer: Seq<char>, symbol: Symbol) -> Seq<char> {
    match symbol {
        Symbol::Digit(d) => if answer.len() < ANSWER_LENGTH {
            answer.push(digit_char(d))
        } else {
            Seq::empty()
        },
        Symbol::Delete => if answer.len() > 0 {
            answer.drop_last()
        } else {
            answer
        },
        Symbol::Submit => Seq::empty(),
    }
}

/// What the display does after one symbol.
pub open spec fn response_spec(answer: Seq<char>, symbol: Symbol, secret: u8) -> Response {
    match symbol {
        Symbol::Digit(_) => if answer.len() < ANSWER_LENGTH {
            Response::Answer
        } else {
            Response::Reset
        },
        Symbol::Delete => Response::Answer,
        Symbol::Submit => if answer.len() == 0 {
            Response::Unchanged
        } else {
            Response::Judged(evaluate_spec(number_or_zero(answer), secret))
        },
    }
}

/// The digits typed so far of the next guess.
pub struct Accumulator {
    digits: Vec<char>,
}

impl View for Accumulator {
    type V = Seq<char>;

    closed spec fn view(&self) -> Seq<char> {
        self.digits@
    }
}

impl Accumulator {
    /// At most `ANSWER_LENGTH` characters, each a decimal digit.
    pub open spec fn wf(&self) -> bool {
        &&& self@.len() <= ANSWER_LENGTH
        &&& all_digits(self@)
    }

    /// No digits yet.
    pub fn new() -> (r: Accumulator)
        ensures
            r.wf(),
            r@ == Seq::<char>::empty(),
    {
        Accumulator { digits: Vec::new() }
    }

    /// Takes one symbol: a digit is appended unless the answer is full, where it clears
    /// the answer instead; delete drops the last digit; submit judges a non-empty answer
    /// against the game's secret and clears it.
    pub fn apply(&mut self, symbol: Symbol, game: &Game) -> (r: Response)
        requires
            old(self).wf(),
            symbol.wf(),
        ensures
            final(self).wf(),
            final(self)@ == next_answer(old(self)@, symbol),
            r == response_spec(old(self)@, symbol, game.secret()),
    {
        match symbol {
            Symbol::Digit(d) => {
                if self.digits.len() < ANSWER_LENGTH {
                    let c: char = (d + 48) as char;
                    self.digits.push(c);
                    assert forall|i: int| 0 <= i < self@.len() implies is_digit(
                        #[trigger] self@[i],
                    ) by {
                        if i < old(self)@.len() {
                            assert(self@[i] == old(self)@[i]);
                        }
                    }
                    Response::Answer
                } else {
                    self.digits = Vec::new();
                    Response::Reset
                }
            },
            Symbol::Delete => {
                if self.digits.len() > 0 {
                    self.digits.pop();
                    assert forall|i: int| 0 <= i < self@.len() implies is_digit(
                        #[trigger] self@[i],
                    ) by {
                        assert(self@[i] == old(self)@[i]);
                    }
                }
                Response::Answer
            },
            Symbol::Submit => {
                if self.digits.len() == 0 {
                    Response::Unchanged
                } else {
                    let number: u8 = match parse_chars(&self.digits) {
                        Some(n) => n,
                        None => 0,
                    };
                    let outcome = game.outcome(number);
                    self.digits = Vec::new();
                    Response::Judged(outcome)
                }
            },
        }
    }

    /// The answer line's cells: the digits, then blanks up to `ANSWER_LENGTH`, so that
    /// no character of a longer earlier answer stays behind.
    pub fn answer_cells(&self) -> (r: Vec<char>)
        requires
            self.wf(),
        ensures
            r@.len() == ANSWER_LENGTH,
            r@.take(self@.len() as int) == self@,
            forall|i: int| self@.len() <= i < ANSWER_LENGTH ==> r@[i] == ' ',
    {
        let mut cells: Vec<char> = Vec::new();
        let mut i: usize = 0;
        while i < ANSWER_LENGTH
            invariant
                i <= ANSWER_LENGTH,
                self.wf(),
                cells@.len() == i,
                forall|j: int| 0 <= j < i ==> #[trigger] cells@[j] == if j < self@.len() {
                    self@[j]
                } else {
                    ' '
                },
            decreases ANSWER_LENGTH - i,
        {
            if i < self.digits.len() {
                cells.push(self.digits[i]);
            } else {
                cells.push(' ');
            }
            i = i + 1;
        }
        assert(cells@.take(self@.len() as int) == self@);
        cells
    }

    /// The digits typed so far.
    pub fn digits(&self) -> (r: &Vec<char>)
        ensures
            r@ == self@,
    {
        &self.digits
    }
}

} // verus!
