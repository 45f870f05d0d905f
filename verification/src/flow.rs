//! The resolution of one prompt: look it up, confirm, run, forget, ask
//! again and remember, as a machine that is driven from outside.

use crate::cache::CommandCache;
use crate::model::{CompletionError, ConfigurationError};
use vstd::prelude::*;

verus! {

/// Why no command came from the completion engine.
#[derive(Debug, PartialEq, Eq)]
pub enum ResolveError {
    /// The provider cannot be used as it is configured.
    Configuration(ConfigurationError),
    /// The call to the provider failed.
    Completion(CompletionError),
}

/// Where the resolution of a prompt stands.
pub enum FlowStage {
    /// Nothing has happened yet.
    Start,
    /// The cache held a command for the prompt and was not passed over: the
    /// command was shown, and the user is asked whether to run it.
    ConfirmCached { command: Seq<char> },
    /// The user is asked whether to forget the cached command.
    ConfirmInvalidate,
    /// The cache held nothing for the prompt, or was passed over, or was
    /// made to forget: the completion engine was asked for a command.
    AwaitCompletion,
    /// The generated command was shown; the user is asked whether to run
    /// it.
    ConfirmGenerated { command: Seq<char> },
    /// The resolution is over.
    Done,
}

/// What a [`FlowEvent`] stands for.
pub enum FlowInput {
    /// To begin.
    Begin,
    /// What the user answered to the last question: yes, or anything else.
    Answer(bool),
    /// What the completion engine came back with.
    Completion(Result<Option<Seq<char>>, ResolveError>),
}

/// What a [`FlowAction`] stands for.
pub enum ActionView {
    OfferCached(Seq<char>),
    Execute(Seq<char>),
    AskInvalidate,
    Persist,
    RequestCompletion,
    OfferGenerated(Seq<char>),
    ReportCancelled,
    ReportNoCommand,
    ReportFailure(ResolveError),
}

/// The result of one step of the resolution.
pub struct FlowOutcome {
    /// Where the resolution stands now.
    pub stage: FlowStage,
    /// What the cache holds now.
    pub cache: Map<Seq<char>, Seq<char>>,
    /// What is to be done, in this order.
    pub actions: Seq<ActionView>,
}

/// The command that the completion engine produced: its text, unless
/// there is none or it is empty.
pub open spec fn produced(outcome: Result<Option<Seq<char>>, ResolveError>) -> Option<Seq<char>> {
    match outcome {
        Ok(Some(command)) => if command.len() > 0 {
            Some(command)
        } else {
            None
        },
        _ => None,
    }
}

/// One step of the resolution of `prompt`: from where it stands, what the
/// cache holds and what it is told, to where it stands then, what the cache
/// holds then, and what is to be done. An input that does not answer what
/// was asked changes nothing and asks for nothing.
pub open spec fn flow_step(
    prompt: Seq<char>,
    bypass_cache: bool,
    stage: FlowStage,
    cache: Map<Seq<char>, Seq<char>>,
    input: FlowInput,
) -> FlowOutcome {
    match (stage, input) {
        (FlowStage::Start, FlowInput::Begin) => if !bypass_cache && cache.contains_key(prompt) {
            FlowOutcome {
                stage: FlowStage::ConfirmCached { command: cache[prompt] },
                cache,
                actions: seq![ActionView::OfferCached(cache[prompt])],
            }
        } else {
            FlowOutcome {
                stage: FlowStage::AwaitCompletion,
                cache,
                actions: seq![ActionView::RequestCompletion],
            }
        },
        (FlowStage::ConfirmCached { command }, FlowInput::Answer(yes)) => if yes {
            FlowOutcome { stage: FlowStage::Done, cache, actions: seq![ActionView::Execute(command)] }
        } else {
            FlowOutcome {
                stage: FlowStage::ConfirmInvalidate,
                cache,
                actions: seq![ActionView::AskInvalidate],
            }
        },
        (FlowStage::ConfirmInvalidate, FlowInput::Answer(yes)) => if yes {
            FlowOutcome {
                stage: FlowStage::AwaitCompletion,
                cache: cache.remove(prompt),
                actions: seq![ActionView::Persist, ActionView::RequestCompletion],
            }
        } else {
            FlowOutcome { stage: FlowStage::Done, cache, actions: seq![ActionView::ReportCancelled] }
        },
        (FlowStage::AwaitCompletion, FlowInput::Completion(outcome)) => match outcome {
            Err(error) => FlowOutcome {
                stage: FlowStage::Done,
                cache,
                actions: seq![ActionView::ReportFailure(error)],
            },
            Ok(_) => match produced(outcome) {
                Some(command) => FlowOutcome {
                    stage: FlowStage::ConfirmGenerated { command },
                    cache,
                    actions: seq![ActionView::OfferGenerated(command)],
                },
                None => FlowOutcome {
                    stage: FlowStage::Done,
                    cache,
                    actions: seq![ActionView::ReportNoCommand],
                },
            },
        },
        (FlowStage::ConfirmGenerated { command }, FlowInput::Answer(yes)) => FlowOutcome {
            stage: FlowStage::Done,
            cache: cache.insert(prompt, command),
            actions: seq![
                if yes {
                    ActionView::Execute(command)
                } else {
                    ActionView::ReportCancelled
                },
                ActionView::Persist,
            ],
        },
        _ => FlowOutcome { stage, cache, actions: Seq::empty() },
    }
}

/// How many more inputs the resolution can take at most.
pub open spec fn steps_left(stage: FlowStage) -> nat {
    match stage {
        FlowStage::Start => 5,
        FlowStage::ConfirmCached { command } => 4,
        FlowStage::ConfirmInvalidate => 3,
        FlowStage::AwaitCompletion => 2,
        FlowStage::ConfirmGenerated { command } => 1,
        FlowStage::Done => 0,
    }
}

/// A completion that was accepted is remembered: for a prompt that the
/// cache does not hold, the steps from the start over a produced command to
/// the user's answer leave the cache with exactly one entry more, the
/// prompt with that command, whatever the answer; and a later resolution of
/// the same prompt finds it there and asks no provider.
pub proof fn theorem_accepted_command_is_cached(
    prompt: Seq<char>,
    bypass_cache: bool,
    cache: Map<Seq<char>, Seq<char>>,
    command: Seq<char>,
    yes: bool,
)
    requires
        !cache.contains_key(prompt),
        command.len() > 0,
    ensures
        ({
            let begun = flow_step(prompt, bypass_cache, FlowStage::Start, cache, FlowInput::Begin);
            let completed = flow_step(
                prompt,
                bypass_cache,
                begun.stage,
                begun.cache,
                FlowInput::Completion(Ok(Some(command))),
            );
            let answered = flow_step(
                prompt,
                bypass_cache,
                completed.stage,
                completed.cache,
                FlowInput::Answer(yes),
            );
            let later = flow_step(prompt, false, FlowStage::Start, answered.cache, FlowInput::Begin);
            &&& begun.actions == seq![ActionView::RequestCompletion]
            &&& completed.actions == seq![ActionView::OfferGenerated(command)]
            &&& answered.stage == FlowStage::Done
            &&& answered.cache == cache.insert(prompt, command)
            &&& answered.cache.dom() == cache.dom().insert(prompt)
            &&& later.stage == FlowStage::ConfirmCached { command }
            &&& later.actions == seq![ActionView::OfferCached(command)]
            &&& later.cache == answered.cache
        }),
{
    assert(cache.insert(prompt, command).dom() =~= cache.dom().insert(prompt));
}

/// A cached prompt that is forgotten and then not answered anew is gone,
/// and nothing else has changed: after the user agreed to forget it, a
/// completion without a command, or a failed one, leaves the cache as it
/// was but for that prompt.
pub proof fn theorem_forgotten_stays_forgotten(
    prompt: Seq<char>,
    bypass_cache: bool,
    cache: Map<Seq<char>, Seq<char>>,
    outcome: Result<Option<Seq<char>>, ResolveError>,
)
    requires
        produced(outcome) is None,
    ensures
        ({
            let forgotten = flow_step(
                prompt,
                bypass_cache,
                FlowStage::ConfirmInvalidate,
                cache,
                FlowInput::Answer(true),
            );
            let completed = flow_step(
                prompt,
                bypass_cache,
                forgotten.stage,
                forgotten.cache,
                FlowInput::Completion(outcome),
            );
            &&& forgotten.actions == seq![ActionView::Persist, ActionView::RequestCompletion]
            &&& completed.stage == FlowStage::Done
            &&& completed.cache == cache.remove(prompt)
            &&& !completed.cache.contains_key(prompt)
            &&& forall|other: Seq<char>|
                completed.cache.contains_key(other) ==> cache.contains_key(other)
                    && completed.cache[other] == cache[other]
        }),
{
}

/// A completion without a command is no error and is never remembered: an
/// absent or empty text ends the resolution with the report that there is
/// no command, and the cache as it was.
pub proof fn theorem_no_command_is_not_cached(
    prompt: Seq<char>,
    bypass_cache: bool,
    cache: Map<Seq<char>, Seq<char>>,
    text: Option<Seq<char>>,
)
    requires
        text matches Some(command) ==> command.len() == 0,
    ensures
        ({
            let completed = flow_step(
                prompt,
                bypass_cache,
                FlowStage::AwaitCompletion,
                cache,
                FlowInput::Completion(Ok(text)),
            );
            &&& completed.stage == FlowStage::Done
            &&& completed.actions == seq![ActionView::ReportNoCommand]
            &&& completed.cache == cache
        }),
{
}

/// A cached command that the user neither runs nor forgets stays as it
/// is, and no provider is asked.
pub proof fn theorem_declined_twice_keeps_the_entry(
    prompt: Seq<char>,
    cache: Map<Seq<char>, Seq<char>>,
)
    requires
        cache.contains_key(prompt),
    ensures
        ({
            let begun = flow_step(prompt, false, FlowStage::Start, cache, FlowInput::Begin);
            let declined = flow_step(
                prompt,
                false,
                begun.stage,
                begun.cache,
                FlowInput::Answer(false),
            );
            let kept = flow_step(
                prompt,
                false,
                declined.stage,
                declined.cache,
                FlowInput::Answer(false),
            );
            &&& begun.actions == seq![ActionView::OfferCached(cache[prompt])]
            &&& declined.actions == seq![ActionView::AskInvalidate]
            &&& kept.actions == seq![ActionView::ReportCancelled]
            &&& kept.stage == FlowStage::Done
            &&& kept.cache == cache
        }),
{
}

/// Every step that does anything brings the end nearer, so the resolution
/// ends after five inputs at most and never asks twice; the cache changes
/// in no other way than by losing or gaining the prompt; and whenever it
/// may have changed, it is to be stored again.
pub proof fn theorem_flow_progress(
    prompt: Seq<char>,
    bypass_cache: bool,
    stage: FlowStage,
    cache: Map<Seq<char>, Seq<char>>,
    input: FlowInput,
)
    ensures
        ({
            let next = flow_step(prompt, bypass_cache, stage, cache, input);
            &&& next.actions.len() == 0 ==> next.stage == stage && next.cache == cache
            &&& next.actions.len() > 0 ==> steps_left(next.stage) < steps_left(stage)
            &&& stage == FlowStage::Done ==> next.actions.len() == 0
            &&& next.cache == cache || next.cache == cache.remove(prompt) || exists|
                command: Seq<char>,
            | next.cache == cache.insert(prompt, command)
            &&& next.cache != cache ==> next.actions.contains(ActionView::Persist)
        }),
{
    let next = flow_step(prompt, bypass_cache, stage, cache, input);
    match (stage, input) {
        (FlowStage::ConfirmInvalidate, FlowInput::Answer(true)) => {
            assert(next.actions[0] == ActionView::Persist);
        },
        (FlowStage::ConfirmGenerated { command }, FlowInput::Answer(_)) => {
            assert(next.actions[1] == ActionView::Persist);
            assert(next.cache == cache.insert(prompt, command));
        },
        _ => {},
    }
}

/// What the resolution is told.
#[derive(Debug, PartialEq, Eq)]
pub enum FlowEvent {
    /// To begin.
    Begin,
    /// What the user answered to the last question: yes, or anything else.
    Answer(bool),
    /// What the completion engine came back with.
    Completion(Result<Option<String>, ResolveError>),
}

impl View for FlowEvent {
    type V = FlowInput;

    open spec fn view(&self) -> FlowInput {
        match self {
            FlowEvent::Begin => FlowInput::Begin,
            FlowEvent::Answer(yes) => FlowInput::Answer(*yes),
            FlowEvent::Completion(Ok(Some(command))) => FlowInput::Completion(Ok(Some(command@))),
            FlowEvent::Completion(Ok(None)) => FlowInput::Completion(Ok(None)),
            FlowEvent::Completion(Err(error)) => FlowInput::Completion(Err(*error)),
        }
    }
}

/// What is to be done for the resolution.
#[derive(Debug, PartialEq, Eq)]
pub enum FlowAction {
    /// Show the cached command and ask whether to run it.
    OfferCached(String),
    /// Run the command.
    Execute(String),
    /// Ask whether to forget the cached command.
    AskInvalidate,
    /// Store the cache.
    Persist,
    /// Ask the completion engine for a command.
    RequestCompletion,
    /// Show the generated command and ask whether to run it.
    OfferGenerated(String),
    /// Tell the user that nothing is run.
    ReportCancelled,
    /// Tell the user that there is no command.
    ReportNoCommand,
    /// Tell the user why no command came.
    ReportFailure(ResolveError),
}

impl View for FlowAction {
    type V = ActionView;

    open spec fn view(&self) -> ActionView {
        match self {
            FlowAction::OfferCached(command) => ActionView::OfferCached(command@),
            FlowAction::Execute(command) => ActionView::Execute(command@),
            FlowAction::AskInvalidate => ActionView::AskInvalidate,
            FlowAction::Persist => ActionView::Persist,
            FlowAction::RequestCompletion => ActionView::RequestCompletion,
            FlowAction::OfferGenerated(command) => ActionView::OfferGenerated(command@),
            FlowAction::ReportCancelled => ActionView::ReportCancelled,
            FlowAction::ReportNoCommand => ActionView::ReportNoCommand,
            FlowAction::ReportFailure(error) => ActionView::ReportFailure(*error),
        }
    }
}

/// What a list of actions stands for.
pub open spec fn actions_of(actions: Seq<FlowAction>) -> Seq<ActionView> {
    actions.map_values(|action: FlowAction| action@)
}

enum Stage {
    Start,
    ConfirmCached { command: String },
    ConfirmInvalidate,
    AwaitCompletion,
    ConfirmGenerated { command: String },
    Done,
}

impl View for Stage {
    type V = FlowStage;

    closed spec fn view(&self) -> FlowStage {
        match self {
            Stage::Start => FlowStage::Start,
            Stage::ConfirmCached { command } => FlowStage::ConfirmCached { command: command@ },
            Stage::ConfirmInvalidate => FlowStage::ConfirmInvalidate,
            Stage::AwaitCompletion => FlowStage::AwaitCompletion,
            Stage::ConfirmGenerated { command } => FlowStage::ConfirmGenerated {
                command: command@,
            },
            Stage::Done => FlowStage::Done,
        }
    }
}

/// What a resolution stands for: the prompt, whether the cache is passed
/// over, and where the resolution stands.
pub struct FlowView {
    pub prompt: Seq<char>,
    pub bypass_cache: bool,
    pub stage: FlowStage,
}

/// The resolution of one prompt. It is driven from outside:
/// [`ResolutionFlow::step`] takes what happened and says what is to be done
/// next.
pub struct ResolutionFlow {
    prompt: String,
    bypass_cache: bool,
    stage: Stage,
}

impl View for ResolutionFlow {
    type V = FlowView;

    closed spec fn view(&self) -> FlowView {
        FlowView { prompt: self.prompt@, bypass_cache: self.bypass_cache, stage: self.stage@ }
    }
}

/// A list with one action.
fn one(action: FlowAction) -> (actions: Vec<FlowAction>)
    ensures
        actions_of(actions@) == seq![action@],
{
    let mut actions: Vec<FlowAction> = Vec::new();
    actions.push(action);
    actions
}

/// A list with two actions.
fn two(first: FlowAction, second: FlowAction) -> (actions: Vec<FlowAction>)
    ensures
        actions_of(actions@) == seq![first@, second@],
{
    let mut actions: Vec<FlowAction> = Vec::new();
    actions.push(first);
    actions.push(second);
    actions
}

impl ResolutionFlow {
    /// The resolution of `prompt`, not yet begun. With `bypass_cache` the
    /// cache is not looked at, only written.
    pub fn new(prompt: String, bypass_cache: bool) -> (flow: ResolutionFlow)
        ensures
            flow@ == (FlowView { prompt: prompt@, bypass_cache, stage: FlowStage::Start }),
    {
        ResolutionFlow { prompt, bypass_cache, stage: Stage::Start }
    }

    /// The prompt that is resolved.
    pub fn prompt(&self) -> (prompt: &String)
        ensures
            prompt@ == self@.prompt,
    {
        &self.prompt
    }

    /// Whether the resolution is over.
    pub fn is_done(&self) -> (done: bool)
        ensures
            done == (self@.stage == FlowStage::Done),
    {
        match &self.stage {
            Stage::Done => true,
            _ => false,
        }
    }

    /// Takes what happened, changes the cache as the resolution demands,
    /// and says what is to be done next, in order. The last of these
    /// actions, if it is a question or a request, is answered by the next
    /// step; without any, the resolution is over or the input was not what
    /// it asked for.
    pub fn step(&mut self, event: FlowEvent, cache: &mut CommandCache) -> (actions: Vec<FlowAction>)
        ensures
            final(self)@.prompt == old(self)@.prompt,
            final(self)@.bypass_cache == old(self)@.bypass_cache,
            final(self)@.stage == flow_step(
                old(self)@.prompt,
                old(self)@.bypass_cache,
                old(self)@.stage,
                old(cache)@,
                event@,
            ).stage,
            final(cache)@ == flow_step(
                old(self)@.prompt,
                old(self)@.bypass_cache,
                old(self)@.stage,
                old(cache)@,
                event@,
            ).cache,
            actions_of(actions@) == flow_step(
                old(self)@.prompt,
                old(self)@.bypass_cache,
                old(self)@.stage,
                old(cache)@,
                event@,
            ).actions,
    {
        let mut stage = Stage::Done;
        core::mem::swap(&mut self.stage, &mut stage);
        match (stage, event) {
            (Stage::Start, FlowEvent::Begin) => {
                let cached = if self.bypass_cache {
                    None
                } else {
                    cache.lookup(self.prompt.as_str())
                };
                match cached {
                    Some(command) => {
                        let shown = command.clone();
                        self.stage = Stage::ConfirmCached { command: command.clone() };
                        one(FlowAction::OfferCached(shown))
                    },
                    None => {
                        self.stage = Stage::AwaitCompletion;
                        one(FlowAction::RequestCompletion)
                    },
                }
            },
            (Stage::ConfirmCached { command }, FlowEvent::Answer(yes)) => {
                if yes {
                    self.stage = Stage::Done;
                    one(FlowAction::Execute(command))
                } else {
                    self.stage = Stage::ConfirmInvalidate;
                    one(FlowAction::AskInvalidate)
                }
            },
            (Stage::ConfirmInvalidate, FlowEvent::Answer(yes)) => {
                if yes {
                    cache.invalidate(self.prompt.as_str());
                    self.stage = Stage::AwaitCompletion;
                    two(FlowAction::Persist, FlowAction::RequestCompletion)
                } else {
                    self.stage = Stage::Done;
                    one(FlowAction::ReportCancelled)
                }
            },
            (Stage::AwaitCompletion, FlowEvent::Completion(outcome)) => {
                match outcome {
                    Ok(Some(command)) => {
                        if command.as_str().is_empty() {
                            self.stage = Stage::Done;
                            one(FlowAction::ReportNoCommand)
                        } else {
                            let shown = command.clone();
                            self.stage = Stage::ConfirmGenerated { command };
                            one(FlowAction::OfferGenerated(shown))
                        }
                    },
                    Ok(None) => {
                        self.stage = Stage::Done;
                        one(FlowAction::ReportNoCommand)
                    },
                    Err(error) => {
                        self.stage = Stage::Done;
                        one(FlowAction::ReportFailure(error))
                    },
                }
            },
            (Stage::ConfirmGenerated { command }, FlowEvent::Answer(yes)) => {
                let first = if yes {
                    FlowAction::Execute(command.clone())
                } else {
                    FlowAction::ReportCancelled
                };
                cache.insert(self.prompt.clone(), command);
                self.stage = Stage::Done;
                two(first, FlowAction::Persist)
            },
            (stage, _) => {
                self.stage = stage;
                Vec::new()
            },
        }
    }
}

} // verus!
