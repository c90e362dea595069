use vstd::prelude::*;
use rand::rngs::SmallRng;

verus! {

#[verifier::external_type_specification]
#[verifier::external_body]
pub struct ExSmallRng(SmallRng);

/// The largest secret number.
pub const RANGE: u8 = 100;

/// The seed the game draws its secret from unless told otherwise.
pub const DEFAULT_SEED: u64 = 42;

/// Relies on rand's SeedableRng::seed_from_u64 for SmallRng: a generator whose output
/// is fixed by the seed.
#[verifier::external_body]
fn seeded_rng(seed: u64) -> SmallRng {
    <SmallRng as rand::SeedableRng>::seed_from_u64(seed)
}

/// Relies on rand's Rng::random_range over `..=max`: a value in `0..=max` (a range that
/// starts at 0 is never empty, so the call does not panic).
#[verifier::external_body]
fn draw_at_most(rng: &mut SmallRng, max: u8) -> (r: u8)
    ensures
        r <= max,
{
    rand::Rng::random_range(rng, ..=max)
}

/// How the secret compares with a guess, told to the guesser.
#[derive(PartialEq, Eq, Structural, Clone, Copy, Debug)]
pub enum GuessOutcome {
    /// The guess was above the secret: the answer is lower.
    TooLow,
    /// The guess was below the secret: the answer is greater.
    TooHigh,
    Correct,
}

pub open spec fn evaluate_spec(guess: u8, secret: u8) -> GuessOutcome {
    if guess > secret {
        GuessOutcome::TooLow
    } else if guess < secret {
        GuessOutcome::TooHigh
    } else {
        GuessOutcome::Correct
    }
}

/// Compares a guess with the secret.
pub fn evaluate(guess: u8, secret: u8) -> (r: GuessOutcome)
    ensures
        r == evaluate_spec(guess, secret),
{
    if guess > secret {
        GuessOutcome::TooLow
    } else if guess < secret {
        GuessOutcome::TooHigh
    } else {
        GuessOutcome::Correct
    }
}

pub open spec fn title_spec(outcome: GuessOutcome) -> Seq<char> {
    match outcome {
        GuessOutcome::TooLow => "Number is lower"@,
        GuessOutcome::TooHigh => "Number is greater"@,
        GuessOutcome::Correct => "Right! Congratz!"@,
    }
}

impl GuessOutcome {
    /// The title line that shows this outcome.
    pub fn title(self) -> (r: &'static str)
        ensures
            r@ == title_spec(self),
    {
        match self {
            GuessOutcome::TooLow => "Number is lower",
            GuessOutcome::TooHigh => "Number is greater",
            GuessOutcome::Correct => "Right! Congratz!",
        }
    }
}

/// One game: a secret number in `0..=RANGE`, fixed when the game is made.
pub struct Game {
    random_number: u8,
}

impl Game {
    /// The number to guess.
    pub closed spec fn secret(&self) -> u8 {
        self.random_number
    }

    /// A game whose secret is drawn from the default seed, so it is the same every run.
    pub fn new() -> (r: Game)
        ensures
            r.secret() <= RANGE,
    {
        Game::with_seed(DEFAULT_SEED)
    }

    /// A game whose secret is drawn from a generator seeded with `seed`.
    pub fn with_seed(seed: u64) -> (r: Game)
        ensures
            r.secret() <= RANGE,
    {
        let mut rng = seeded_rng(seed);
        Game { random_number: draw_at_most(&mut rng, RANGE) }
    }

    /// A game with a chosen secret.
    pub fn with_secret(secret: u8) -> (r: Game)
        requires
            secret <= RANGE,
        ensures
            r.secret() == secret,
    {
        Game { random_number: secret }
    }

    /// How `number` compares with the secret.
    pub fn outcome(&self, number: u8) -> (r: GuessOutcome)
        ensures
            r == evaluate_spec(number, self.secret()),
    {
        evaluate(number, self.random_number)
    }

    /// The title that answers the guess `number`.
    pub fn check(&self, number: u8) -> (r: &'static str)
        ensures
            r@ == title_spec(evaluate_spec(number, self.secret())),
    {
        self.outcome(number).title()
    }
}

} // verus!
