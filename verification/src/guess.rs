//! The guessing game: a secret number between one and one hundred, a
//! budget of attempts, and a verdict for every guess. The console loop
//! around it reads guesses and prints the verdicts.
use vstd::prelude::*;

verus! {

/// Relies on rand::random_range: returns a value from the closed
/// range. Nothing is promised of the draw beyond its bounds.
#[verifier::external_body]
fn random_in_range(low: u32, high: u32) -> (r: u32)
    requires
        low <= high,
    ensures
        low <= r <= high,
{
    rand::random_range(low..=high)
}

/// How a guess compares to the secret.
#[derive(Debug, PartialEq, Eq, Structural, Clone, Copy)]
pub enum GuessOutcome {
    TooBig,
    TooSmall,
    Win,
}

/// Compares a guess to the secret.
pub fn guess_outcome(secret: u32, guess: u32) -> (r: GuessOutcome)
    ensures
        r == (if guess > secret {
            GuessOutcome::TooBig
        } else if guess < secret {
            GuessOutcome::TooSmall
        } else {
            GuessOutcome::Win
        }),
{
    if guess > secret {
        GuessOutcome::TooBig
    } else if guess < secret {
        GuessOutcome::TooSmall
    } else {
        GuessOutcome::Win
    }
}

/// What one round of the game decides.
#[derive(Debug, PartialEq, Eq, Structural, Clone, Copy)]
pub enum StepResult {
    /// The attempts are spent; the secret is given away.
    OutOfLuck(u32),
    /// The input was not a number; the round does not count.
    AskAgain,
    /// The guess was too big; one attempt is spent.
    TooBig,
    /// The guess was too small; one attempt is spent.
    TooSmall,
    /// The guess hit the secret.
    Win,
}

/// The game: a secret and the attempts that are left.
pub struct GuessGame {
    pub secret: u32,
    pub attempts: u32,
}

impl GuessGame {
    /// The secret stays within the advertised bounds.
    pub open spec fn wf(self) -> bool {
        1 <= self.secret <= 100
    }

    /// Starts a game with a fresh secret and five attempts.
    pub fn new() -> (r: GuessGame)
        ensures
            r.wf(),
            r.attempts == 5,
    {
        GuessGame { secret: random_in_range(1, 100), attempts: 5 }
    }

    /// Plays one round on a parsed guess, or on none when the input
    /// was not a number. Only a wrong guess spends an attempt; a spent
    /// budget ends the game and gives the secret away.
    pub fn step(&mut self, guess: Option<u32>) -> (r: StepResult)
        ensures
            final(self).secret == old(self).secret,
            old(self).wf() ==> final(self).wf(),
            old(self).attempts == 0 ==> r == StepResult::OutOfLuck(old(self).secret)
                && final(self).attempts == 0,
            old(self).attempts > 0 && guess is None ==> r == StepResult::AskAgain
                && final(self).attempts == old(self).attempts,
            old(self).attempts > 0 && (guess matches Some(g) && g == old(self).secret) ==> r
                == StepResult::Win && final(self).attempts == old(self).attempts,
            old(self).attempts > 0 && (guess matches Some(g) && g > old(self).secret) ==> r
                == StepResult::TooBig && final(self).attempts == old(self).attempts - 1,
            old(self).attempts > 0 && (guess matches Some(g) && g < old(self).secret) ==> r
                == StepResult::TooSmall && final(self).attempts == old(self).attempts - 1,
    {
        if self.attempts == 0 {
            return StepResult::OutOfLuck(self.secret);
        }
        let g = match guess {
            Some(g) => g,
            None => {
                return StepResult::AskAgain;
            },
        };
        match guess_outcome(self.secret, g) {
            GuessOutcome::Win => StepResult::Win,
            GuessOutcome::TooBig => {
                self.attempts = self.attempts - 1;
                StepResult::TooBig
            },
            GuessOutcome::TooSmall => {
                self.attempts = self.attempts - 1;
                StepResult::TooSmall
            },
        }
    }
}

} // verus!
