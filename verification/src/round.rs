//! One round of the game: the verdict on a guess, the messages that tell of
//! it, and the order in which a round's replies go out.
//!
//! The library sends nothing itself. A round is a state, and each step hands
//! the caller one action to perform; the caller reports what became of it and
//! gets the next.
//!
//! A round rolls once, on its source of chance, before it sends anything:
//! that roll is judged against the guess and is the number the result tells.
//! The animated die that goes out in between only fills the wait, and what it
//! shows is not read.

use vstd::prelude::*;
use vstd::string::*;
use crate::game::{
    drew_lose_message, drew_win_message, even_odd_wins, exact_number_wins, high_low_wins,
    is_die_face, is_lose_message, is_win_message, DiceGame, DIE_MAX, DIE_MIN,
};
use crate::random::RandomSource;
use crate::state::{Choice, EvenOddChoice, HighLowChoice};
use crate::text::{decimal_digits, decimal_text};

verus! {

/// How many seconds the die is given to come to rest before the result is
/// told.
pub const REVEAL_PAUSE: u64 = 3;

/// How many seconds pass between the result and the invitation to play again.
pub const REPLAY_PAUSE: u64 = 2;

/// The invitation to another round.
pub const REPLAY_TEXT: &'static str = "🎮 Хотите сыграть еще раз? Используйте /play для новой игры!";

/// Whether a guess wins against a roll.
pub open spec fn verdict_spec(choice: Choice, roll: int) -> bool {
    match choice {
        Choice::EvenOdd(parity) => even_odd_wins(roll, parity),
        Choice::HighLow(half) => high_low_wins(roll, half),
        Choice::ExactNumber(guess) => exact_number_wins(roll, guess as int),
    }
}

/// Whether a guess wins against a roll.
pub fn verdict(choice: Choice, roll: u8) -> (win: bool)
    ensures
        win == verdict_spec(choice, roll as int),
{
    match choice {
        Choice::EvenOdd(parity) => DiceGame::check_even_odd(roll, parity),
        Choice::HighLow(half) => DiceGame::check_high_low(roll, half),
        Choice::ExactNumber(guess) => DiceGame::check_exact_number(roll, guess),
    }
}

/// How a round came out: what the die showed, and whether the guess won.
#[derive(Clone, Copy, Debug, PartialEq, Eq, Structural)]
pub struct RoundResult {
    pub roll: u8,
    pub win: bool,
}

/// Plays a round on a die of the library's own: asks the source for one roll
/// and judges the guess against it.
pub fn run_round<R: RandomSource>(choice: Choice, source: &mut R) -> (result: RoundResult)
    requires
        choice.valid(),
    ensures
        is_die_face(result.roll as int),
        old(source).draws(*final(source), DIE_MIN as usize, DIE_MAX as usize, result.roll as usize),
        result.win == verdict_spec(choice, result.roll as int),
{
    let roll = DiceGame::roll_with(source);
    RoundResult { roll, win: verdict(choice, roll) }
}

/// How a guess is named in the acknowledgment.
pub open spec fn choice_name(choice: Choice) -> Seq<char> {
    match choice {
        Choice::EvenOdd(EvenOddChoice::Even) => "четное"@,
        Choice::EvenOdd(EvenOddChoice::Odd) => "нечетное"@,
        Choice::HighLow(HighLowChoice::High) => "больше 3.5 (4-6)"@,
        Choice::HighLow(HighLowChoice::Low) => "меньше 3.5 (1-3)"@,
        Choice::ExactNumber(guess) => decimal_digits(guess as nat),
    }
}

/// What the acknowledgment of a guess begins with.
pub open spec fn selection_lead(choice: Choice) -> Seq<char> {
    match choice {
        Choice::EvenOdd(_) => "🎯 Вы выбрали: "@,
        Choice::HighLow(_) => "📊 Вы выбрали: "@,
        Choice::ExactNumber(_) => "🎯 Вы выбрали число: "@,
    }
}

/// The acknowledgment of a guess: the guess by name, and word that the die is
/// being rolled.
pub open spec fn selection_text_spec(choice: Choice) -> Seq<char> {
    selection_lead(choice) + choice_name(choice) + "\n🎲 Бросаю кубик..."@
}

/// What a roll is called in the variant of the guess: its parity, its half of
/// the die, or nothing where the guess was a number.
pub open spec fn roll_name(choice: Choice, roll: int) -> Seq<char> {
    match choice {
        Choice::EvenOdd(_) => if roll % 2 == 0 {
            "четное"@
        } else {
            "нечетное"@
        },
        Choice::HighLow(_) => if roll >= 4 {
            "больше 3.5"@
        } else {
            "меньше 3.5"@
        },
        Choice::ExactNumber(_) => Seq::<char>::empty(),
    }
}

/// The sign that a result opens with.
pub open spec fn verdict_mark(win: bool) -> Seq<char> {
    if win {
        "🎉"@
    } else {
        "😔"@
    }
}

/// The line, or the two lines, that tell of the roll.
pub open spec fn result_body(choice: Choice, roll: int) -> Seq<char> {
    let number = decimal_digits(roll as nat);
    match choice {
        Choice::EvenOdd(_) => " Число "@ + number + ": "@ + roll_name(choice, roll),
        Choice::HighLow(_) => " Число "@ + number + " - "@ + roll_name(choice, roll),
        Choice::ExactNumber(guess) => if verdict_spec(choice, roll) {
            " Выпало число: "@ + number + "\nВы угадали!"@
        } else {
            " Выпало число: "@ + number + "\nВы выбрали: "@ + decimal_digits(guess as nat)
        },
    }
}

/// The result message of a round: the sign of the verdict, the roll told in
/// the terms of the variant, an empty line, and the flavor text.
pub open spec fn result_text_spec(choice: Choice, roll: int, flavor: Seq<char>) -> Seq<char> {
    verdict_mark(verdict_spec(choice, roll)) + result_body(choice, roll) + "\n\n"@ + flavor
}

/// Whether a flavor text fits a round: it is a message for wins where the
/// guess won, and a message for losses where it did not.
pub open spec fn fits_verdict(choice: Choice, roll: int, flavor: Seq<char>) -> bool {
    if verdict_spec(choice, roll) {
        is_win_message(flavor)
    } else {
        is_lose_message(flavor)
    }
}

/// Whether `flavor` is the flavor text that one draw on a source picked for a
/// round that was won, or lost: the draw goes over the messages for wins in
/// the one case and over those for losses in the other, and leaves the source
/// as `after`.
pub open spec fn drew_flavor<R: RandomSource>(before: R, after: R, win: bool, flavor: Seq<char>)
    -> bool {
    if win {
        drew_win_message(before, after, flavor)
    } else {
        drew_lose_message(before, after, flavor)
    }
}

/// The acknowledgment of a guess.
pub fn selection_text(choice: Choice) -> (text: String)
    ensures
        text@ == selection_text_spec(choice),
{
    let mut text = match choice {
        Choice::EvenOdd(_) => String::from_str("🎯 Вы выбрали: "),
        Choice::HighLow(_) => String::from_str("📊 Вы выбрали: "),
        Choice::ExactNumber(_) => String::from_str("🎯 Вы выбрали число: "),
    };
    match choice {
        Choice::EvenOdd(EvenOddChoice::Even) => text.append("четное"),
        Choice::EvenOdd(EvenOddChoice::Odd) => text.append("нечетное"),
        Choice::HighLow(HighLowChoice::High) => text.append("больше 3.5 (4-6)"),
        Choice::HighLow(HighLowChoice::Low) => text.append("меньше 3.5 (1-3)"),
        Choice::ExactNumber(guess) => {
            let number = decimal_text(guess);
            text.append(number.as_str());
        },
    }
    text.append("\n🎲 Бросаю кубик...");
    text
}

/// The result message of a round, with the flavor text given.
pub fn result_text(choice: Choice, roll: u8, flavor: &str) -> (text: String)
    ensures
        text@ == result_text_spec(choice, roll as int, flavor@),
{
    let win = verdict(choice, roll);
    let mut text = if win {
        String::from_str("🎉")
    } else {
        String::from_str("😔")
    };
    let number = decimal_text(roll);
    match choice {
        Choice::EvenOdd(_) => {
            text.append(" Число ");
            text.append(number.as_str());
            text.append(": ");
            if roll % 2 == 0 {
                text.append("четное");
            } else {
                text.append("нечетное");
            }
        },
        Choice::HighLow(_) => {
            text.append(" Число ");
            text.append(number.as_str());
            text.append(" - ");
            if roll >= 4 {
                text.append("больше 3.5");
            } else {
                text.append("меньше 3.5");
            }
        },
        Choice::ExactNumber(guess) => {
            text.append(" Выпало число: ");
            text.append(number.as_str());
            if win {
                text.append("\nВы угадали!");
            } else {
                text.append("\nВы выбрали: ");
                let guessed = decimal_text(guess);
                text.append(guessed.as_str());
            }
        },
    }
    text.append("\n\n");
    text.append(flavor);
    assert(text@ =~= result_text_spec(choice, roll as int, flavor@));
    text
}

/// The result message of a round, with the flavor text that the source picks
/// in one draw to fit the verdict.
pub fn result_message<R: RandomSource>(choice: Choice, roll: u8, source: &mut R) -> (text: String)
    ensures
        exists|flavor: Seq<char>| #[trigger]
            fits_verdict(choice, roll as int, flavor) && drew_flavor(
                *old(source),
                *final(source),
                verdict_spec(choice, roll as int),
                flavor,
            ) && text@ == result_text_spec(choice, roll as int, flavor),
{
    let flavor = if verdict(choice, roll) {
        DiceGame::win_message_with(source)
    } else {
        DiceGame::lose_message_with(source)
    };
    assert(fits_verdict(choice, roll as int, flavor@));
    result_text(choice, roll, flavor)
}

/// Where a round stands: which of its replies is under way.
#[derive(Clone, Copy, Debug, PartialEq, Eq, Structural)]
pub enum Phase {
    /// The acknowledgment of the guess is being sent.
    Acknowledging,
    /// The animated die is being sent.
    RollRequested,
    /// The die is given time to come to rest.
    Revealing,
    /// The result message is being sent.
    Reporting,
    /// The result is out, and the round rests before it invites again.
    Resting,
    /// The invitation to another round is being sent.
    Inviting,
    /// Every reply is out.
    Finished,
    /// A reply could not be sent, and the rest was given up.
    Aborted,
}

/// What became of the action that a round asked for last.
#[derive(Clone, Copy, Debug, PartialEq, Eq, Structural)]
pub enum Outcome {
    /// It was carried out.
    Done,
    /// It could not be carried out.
    Failed,
}

/// What a round asks its caller to do next.
#[derive(Clone, Debug, PartialEq, Eq)]
pub enum Action {
    /// Send this text.
    Send(String),
    /// Send the animated die.
    SendDice,
    /// Let this many seconds pass.
    Pause(u64),
    /// Nothing: the round is over.
    Stop,
}

/// An action as plain values.
pub enum ActionView {
    Send(Seq<char>),
    SendDice,
    Pause(u64),
    Stop,
}

impl View for Action {
    type V = ActionView;

    open spec fn view(&self) -> ActionView {
        match self {
            Action::Send(text) => ActionView::Send(text@),
            Action::SendDice => ActionView::SendDice,
            Action::Pause(seconds) => ActionView::Pause(*seconds),
            Action::Stop => ActionView::Stop,
        }
    }
}

/// A round under way: the guess it was begun with, how it came out, and
/// where it stands.
#[derive(Clone, Copy, Debug, PartialEq, Eq, Structural)]
pub struct Round {
    pub choice: Choice,
    pub result: RoundResult,
    pub phase: Phase,
}

/// A phase in which the round is over.
pub open spec fn is_over(phase: Phase) -> bool {
    phase is Finished || phase is Aborted
}

/// The result of judging a guess against a roll.
pub open spec fn judged(choice: Choice, roll: u8) -> RoundResult {
    RoundResult { roll, win: verdict_spec(choice, roll as int) }
}

/// A round as it stands when it has been rolled and nothing is sent yet.
pub open spec fn opening(choice: Choice, roll: u8) -> Round {
    Round { choice, result: judged(choice, roll), phase: Phase::Acknowledging }
}

/// The phase that follows, given what became of the last action. A round that
/// is over stays as it is; a failure gives up what is left; otherwise the
/// replies follow one another and none is left out.
pub open spec fn next_phase(phase: Phase, outcome: Outcome) -> Phase {
    if is_over(phase) {
        phase
    } else if outcome is Failed {
        Phase::Aborted
    } else {
        match phase {
            Phase::Acknowledging => Phase::RollRequested,
            Phase::RollRequested => Phase::Revealing,
            Phase::Revealing => Phase::Reporting,
            Phase::Reporting => Phase::Resting,
            Phase::Resting => Phase::Inviting,
            _ => Phase::Finished,
        }
    }
}

/// The action that leads into a phase, for a round with this guess and this
/// roll, and with the flavor text given.
pub open spec fn action_into(choice: Choice, roll: u8, after: Phase, flavor: Seq<char>)
    -> ActionView {
    match after {
        Phase::Acknowledging => ActionView::Send(selection_text_spec(choice)),
        Phase::RollRequested => ActionView::SendDice,
        Phase::Revealing => ActionView::Pause(REVEAL_PAUSE),
        Phase::Reporting => ActionView::Send(result_text_spec(choice, roll as int, flavor)),
        Phase::Resting => ActionView::Pause(REPLAY_PAUSE),
        Phase::Inviting => ActionView::Send(REPLAY_TEXT@),
        Phase::Finished => ActionView::Stop,
        Phase::Aborted => ActionView::Stop,
    }
}

/// One step of a round: the round as it stands afterwards, and the action it
/// asks for. `flavor` is the flavor text for the step that sends the result.
pub open spec fn step_spec(round: Round, outcome: Outcome, flavor: Seq<char>) -> (
    Round,
    ActionView,
) {
    let after = next_phase(round.phase, outcome);
    (
        Round { choice: round.choice, result: round.result, phase: after },
        action_into(round.choice, round.result.roll, after, flavor),
    )
}

/// Whether a step sends the result: it does when the die has come to rest
/// and nothing has failed.
pub open spec fn sends_result(round: Round, outcome: Outcome) -> bool {
    round.phase is Revealing && !(outcome is Failed)
}

/// Whether a flavor text will do for a step: it matters only where the step
/// sends the result, and there it has to fit the verdict.
pub open spec fn flavor_fits(round: Round, outcome: Outcome, flavor: Seq<char>) -> bool {
    sends_result(round, outcome) ==> fits_verdict(
        round.choice,
        round.result.roll as int,
        flavor,
    )
}

/// What a step does to the source it is given. A step that sends the result
/// takes `flavor` from the source in one draw over the messages that fit the
/// verdict; every other step leaves the source as it was.
pub open spec fn step_drawn<R: RandomSource>(
    round: Round,
    outcome: Outcome,
    before: R,
    after: R,
    flavor: Seq<char>,
) -> bool {
    if sends_result(round, outcome) {
        drew_flavor(before, after, round.result.win, flavor)
    } else {
        after == before
    }
}

impl Round {
    /// A round is well formed when its guess is, its roll is a face of the
    /// die, and its verdict is that of the guess against the roll.
    pub open spec fn wf(self) -> bool {
        &&& self.choice.valid()
        &&& is_die_face(self.result.roll as int)
        &&& self.result == judged(self.choice, self.result.roll)
    }

    /// Whether the round is well formed.
    pub fn is_well_formed(&self) -> (ok: bool)
        ensures
            ok == self.wf(),
    {
        let roll = self.result.roll;
        self.choice.is_valid() && DIE_MIN <= roll && roll <= DIE_MAX && self.result.win == verdict(
            self.choice,
            roll,
        )
    }

    /// Begins a round on a guess and a roll that is already made: the roll is
    /// judged, and the first thing to do is to acknowledge the guess.
    pub fn begin_with(choice: Choice, roll: u8) -> (start: (Round, Action))
        requires
            choice.valid(),
            is_die_face(roll as int),
        ensures
            start.0 == opening(choice, roll),
            start.0.wf(),
            start.1@ == ActionView::Send(selection_text_spec(choice)),
    {
        let result = RoundResult { roll, win: verdict(choice, roll) };
        (
            Round { choice, result, phase: Phase::Acknowledging },
            Action::Send(selection_text(choice)),
        )
    }

    /// Begins a round on a guess. The round asks the source for its one roll
    /// and judges the guess against it before anything is sent; the first
    /// thing to do then is to acknowledge the guess.
    pub fn begin<R: RandomSource>(choice: Choice, source: &mut R) -> (start: (Round, Action))
        requires
            choice.valid(),
        ensures
            old(source).draws(
                *final(source),
                DIE_MIN as usize,
                DIE_MAX as usize,
                start.0.result.roll as usize,
            ),
            start.0 == opening(choice, start.0.result.roll),
            start.0.wf(),
            start.1@ == ActionView::Send(selection_text_spec(choice)),
    {
        let result = run_round(choice, source);
        (
            Round { choice, result, phase: Phase::Acknowledging },
            Action::Send(selection_text(choice)),
        )
    }

    /// Whether the round is over.
    pub fn is_finished(&self) -> (over: bool)
        ensures
            over == is_over(self.phase),
    {
        match self.phase {
            Phase::Finished => true,
            Phase::Aborted => true,
            _ => false,
        }
    }

    /// Takes one step, with the flavor text to use should this step send the
    /// result.
    pub fn advance_with(self, outcome: Outcome, flavor: &str) -> (next: (Round, Action))
        requires
            self.wf(),
        ensures
            (next.0, next.1@) == step_spec(self, outcome, flavor@),
            next.0.wf(),
    {
        let failed = match outcome {
            Outcome::Failed => true,
            Outcome::Done => false,
        };
        if self.is_finished() {
            return (self, Action::Stop);
        }
        if failed {
            return (
                Round { choice: self.choice, result: self.result, phase: Phase::Aborted },
                Action::Stop,
            );
        }
        let (phase, action) = match self.phase {
            Phase::Acknowledging => (Phase::RollRequested, Action::SendDice),
            Phase::RollRequested => (Phase::Revealing, Action::Pause(REVEAL_PAUSE)),
            Phase::Revealing => (
                Phase::Reporting,
                Action::Send(result_text(self.choice, self.result.roll, flavor)),
            ),
            Phase::Reporting => (Phase::Resting, Action::Pause(REPLAY_PAUSE)),
            Phase::Resting => (Phase::Inviting, Action::Send(String::from_str(REPLAY_TEXT))),
            _ => (Phase::Finished, Action::Stop),
        };
        (Round { choice: self.choice, result: self.result, phase }, action)
    }

    /// Takes one step. Where the step sends the result, the flavor text is
    /// drawn on the source to fit the verdict; no other step draws.
    pub fn advance<R: RandomSource>(self, outcome: Outcome, source: &mut R) -> (next: (
        Round,
        Action,
    ))
        requires
            self.wf(),
        ensures
            exists|flavor: Seq<char>| #[trigger]
                step_drawn(self, outcome, *old(source), *final(source), flavor) && flavor_fits(
                    self,
                    outcome,
                    flavor,
                ) && (next.0, next.1@) == step_spec(self, outcome, flavor),
            next.0.wf(),
    {
        let failed = match outcome {
            Outcome::Failed => true,
            Outcome::Done => false,
        };
        let flavor = match self.phase {
            Phase::Revealing => if failed {
                ""
            } else if self.result.win {
                DiceGame::win_message_with(source)
            } else {
                DiceGame::lose_message_with(source)
            },
            _ => "",
        };
        assert(flavor_fits(self, outcome, flavor@));
        assert(step_drawn(self, outcome, *old(source), *source, flavor@));
        self.advance_with(outcome, flavor)
    }
}

/// The replies of a round in which nothing fails, in their order: the
/// acknowledgment, the die, the pause for the die, the result on the roll,
/// the pause after it, and the invitation.
pub open spec fn script_spec(choice: Choice, roll: u8, flavor: Seq<char>) -> Seq<ActionView> {
    seq![
        ActionView::Send(selection_text_spec(choice)),
        ActionView::SendDice,
        ActionView::Pause(REVEAL_PAUSE),
        ActionView::Send(result_text_spec(choice, roll as int, flavor)),
        ActionView::Pause(REPLAY_PAUSE),
        ActionView::Send(REPLAY_TEXT@),
    ]
}

/// A run of actions as plain values.
pub open spec fn actions_view(actions: Seq<Action>) -> Seq<ActionView> {
    Seq::new(actions.len(), |i: int| actions[i]@)
}

/// What a whole round draws on its source: first its one roll over the faces
/// of the die, which leaves the source as `between`, and then the flavor text
/// that fits the verdict on that roll.
pub open spec fn round_drawn<R: RandomSource>(
    before: R,
    between: R,
    after: R,
    choice: Choice,
    roll: u8,
    flavor: Seq<char>,
) -> bool {
    &&& is_die_face(roll as int)
    &&& before.draws(between, DIE_MIN as usize, DIE_MAX as usize, roll as usize)
    &&& drew_flavor(between, after, verdict_spec(choice, roll as int), flavor)
}

/// Plays a round through as it goes when nothing fails, and gives its
/// replies in their order. The source is asked twice and no more: once for
/// the roll, before anything else, and once for the flavor text of the
/// result, which tells of that roll.
pub fn script<R: RandomSource>(choice: Choice, source: &mut R) -> (actions: Vec<Action>)
    requires
        choice.valid(),
    ensures
        exists|between: R, roll: u8, flavor: Seq<char>| #[trigger]
            round_drawn(*old(source), between, *final(source), choice, roll, flavor)
                && actions_view(actions@) == script_spec(choice, roll, flavor),
{
    let mut actions: Vec<Action> = Vec::new();
    let (round, action) = Round::begin(choice, source);
    let ghost between = *source;
    let ghost roll = round.result.roll;
    actions.push(action);
    let (round, action) = round.advance(Outcome::Done, source);
    actions.push(action);
    let (round, action) = round.advance(Outcome::Done, source);
    actions.push(action);
    let (round, action) = round.advance(Outcome::Done, source);
    let ghost flavor = choose|flavor: Seq<char>| #[trigger]
        drew_flavor(between, *source, verdict_spec(choice, roll as int), flavor) && action@
            == ActionView::Send(result_text_spec(choice, roll as int, flavor));
    actions.push(action);
    let ghost after = *source;
    let (round, action) = round.advance(Outcome::Done, source);
    actions.push(action);
    let (round, action) = round.advance(Outcome::Done, source);
    actions.push(action);
    assert(*source == after);
    assert(round_drawn(*old(source), between, *source, choice, roll, flavor));
    assert(actions_view(actions@) =~= script_spec(choice, roll, flavor));
    actions
}

/// A round in which nothing fails asks for its six replies in their order and
/// then stops: the acknowledgment, the die, the pause for the die, the
/// result, the pause after it, and the invitation. The result tells of the
/// roll that the round was begun with, and of no other number.
pub proof fn lemma_round_script(choice: Choice, roll: u8, flavor: Seq<char>)
    ensures
        ({
            let start = opening(choice, roll);
            let first = step_spec(start, Outcome::Done, flavor);
            let second = step_spec(first.0, Outcome::Done, flavor);
            let third = step_spec(second.0, Outcome::Done, flavor);
            let fourth = step_spec(third.0, Outcome::Done, flavor);
            let fifth = step_spec(fourth.0, Outcome::Done, flavor);
            let sixth = step_spec(fifth.0, Outcome::Done, flavor);
            &&& first.1 == ActionView::SendDice
            &&& second.1 == ActionView::Pause(REVEAL_PAUSE)
            &&& sends_result(second.0, Outcome::Done)
            &&& third.1 == ActionView::Send(result_text_spec(choice, roll as int, flavor))
            &&& fourth.1 == ActionView::Pause(REPLAY_PAUSE)
            &&& fifth.1 == ActionView::Send(REPLAY_TEXT@)
            &&& sixth.1 == ActionView::Stop
            &&& sixth.0.phase == Phase::Finished
            &&& sixth.0.result == judged(choice, roll)
        }),
{
}

/// The one roll of a round decides the verdict and is the number shown: the
/// result that a well-formed round sends opens with the sign of its verdict
/// and tells of its roll.
pub proof fn lemma_result_tells_the_roll(round: Round, flavor: Seq<char>)
    requires
        round.wf(),
        round.phase is Revealing,
    ensures
        round.result.win == verdict_spec(round.choice, round.result.roll as int),
        step_spec(round, Outcome::Done, flavor).1 == ActionView::Send(
            verdict_mark(round.result.win) + result_body(round.choice, round.result.roll as int)
                + "\n\n"@ + flavor,
        ),
{
}

/// Only the step that sends the result draws on the source: every other step
/// leaves the source as it was, and none of them asks it for a roll.
pub proof fn lemma_only_the_result_draws<R: RandomSource>(
    round: Round,
    outcome: Outcome,
    before: R,
    after: R,
    flavor: Seq<char>,
)
    requires
        step_drawn(round, outcome, before, after, flavor),
        !sends_result(round, outcome),
    ensures
        after == before,
{
}

/// A failure ends the round at once, whatever was still to come, and a round
/// that is over asks for nothing more, whatever it is told.
pub proof fn lemma_failure_aborts(round: Round, outcome: Outcome, flavor: Seq<char>)
    ensures
        step_spec(round, Outcome::Failed, flavor).1 == ActionView::Stop,
        is_over(step_spec(round, Outcome::Failed, flavor).0.phase),
        is_over(round.phase) ==> step_spec(round, outcome, flavor) == (round, ActionView::Stop),
{
}

/// A step changes neither the guess of the round nor its roll and verdict,
/// and it leaves a well-formed round well formed.
pub proof fn lemma_step_keeps_choice(round: Round, outcome: Outcome, flavor: Seq<char>)
    ensures
        step_spec(round, outcome, flavor).0.choice == round.choice,
        step_spec(round, outcome, flavor).0.result == round.result,
        round.wf() ==> step_spec(round, outcome, flavor).0.wf(),
{
}

} // verus!
