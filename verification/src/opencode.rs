//! Answers that arrive from an OpenCode session piece by piece.

use crate::active_prompt::PromptControlError;
use crate::conversation;
use crate::conversation::ToolEvidence;
use crate::prompt_events;
use crate::prompt_events::{
    agent_provider, ensure_agent_prerequisites, EventView, ModelProvider,
    PromptExecutionEventPayload,
};
use crate::settings::{AgentModel, InstantModel};
use crate::text;
use crate::text::{concat2, decimal_text, to_ascii_lowercase, trim};
use vstd::prelude::*;
use vstd::string::*;

verus! {

broadcast use vstd::string::group_string_axioms;

/// A model of an OpenCode session.
#[derive(Clone, Copy, Debug, PartialEq, Eq, Structural)]
pub enum OpencodeModel {
    Gpt56SolHigh,
    Gpt56LunaLow,
}

/// The model of an OpenCode session that runs the Instant stage, where one does.
pub open spec fn opencode_model_of(model: InstantModel) -> Result<OpencodeModel, Seq<char>> {
    match model {
        InstantModel::OpenCodeSolHigh => Ok(OpencodeModel::Gpt56SolHigh),
        InstantModel::OpenCodeLunaLow => Ok(OpencodeModel::Gpt56LunaLow),
        _ => Err("invalid OpenCode model selection"@),
    }
}

/// The model of an OpenCode session that runs the Instant stage, where one does.
pub fn opencode_instant_model(model: InstantModel) -> (result: Result<OpencodeModel, String>)
    ensures
        text::outcome(result) == opencode_model_of(model),
{
    match model {
        InstantModel::OpenCodeSolHigh => Ok(OpencodeModel::Gpt56SolHigh),
        InstantModel::OpenCodeLunaLow => Ok(OpencodeModel::Gpt56LunaLow),
        _ => Err("invalid OpenCode model selection".to_owned()),
    }
}

/// What an agent may do besides answering.
#[derive(Clone, Copy, Debug, PartialEq, Eq, Structural)]
pub enum OpencodeToolPolicy {
    AnswerOnly,
    Research,
}

/// What the Deep stage may do besides answering: research, where its provider has tools.
pub fn deep_tool_policy(model: AgentModel) -> (policy: OpencodeToolPolicy)
    ensures
        policy == (if prompt_events::agent_provider_of(model) is OpenCode {
            OpencodeToolPolicy::Research
        } else {
            OpencodeToolPolicy::AnswerOnly
        }),
{
    match agent_provider(model) {
        prompt_events::ModelProvider::OpenCode => OpencodeToolPolicy::Research,
        _ => OpencodeToolPolicy::AnswerOnly,
    }
}

/// The identifier of the message that carries a prompt.
pub open spec fn instant_message(generation: nat, now_ms: nat) -> Seq<char> {
    "msg_voxgolem_"@ + text::decimal(generation) + "_"@ + text::decimal(now_ms)
}

/// The identifier of the message that carries an agent's prompt.
pub open spec fn agent_message(request_id: Seq<char>) -> Seq<char> {
    "agent-"@ + request_id
}

/// The identifier under which the Deep stage of a request runs.
pub open spec fn deep_request(request_id: Seq<char>) -> Seq<char> {
    request_id + "-deep"@
}

/// The identifier under which the Review stage of a request runs.
pub open spec fn review_request(request_id: Seq<char>) -> Seq<char> {
    request_id + "-review"@
}

/// The identifier of the message that carries a prompt.
pub fn instant_message_id(generation: u64, now_ms: u64) -> (id: String)
    ensures
        id@ == instant_message(generation as nat, now_ms as nat),
{
    let mut id = concat2("msg_voxgolem_", decimal_text(generation as u128).as_str());
    id.append("_");
    id.append(decimal_text(now_ms as u128).as_str());
    id
}

/// The identifier of the message that carries an agent's prompt.
pub fn agent_message_id(request_id: &str) -> (id: String)
    ensures
        id@ == agent_message(request_id@),
{
    concat2("agent-", request_id)
}

/// The identifier under which the Deep stage of a request runs.
pub fn deep_request_id(request_id: &str) -> (id: String)
    ensures
        id@ == deep_request(request_id@),
{
    concat2(request_id, "-deep")
}

/// The identifier under which the Review stage of a request runs.
pub fn review_request_id(request_id: &str) -> (id: String)
    ensures
        id@ == review_request(request_id@),
        text::has_suffix(id@, "-review"@),
{
    let id = concat2(request_id, "-review");
    proof {
        assert(id@.skip(request_id@.len() as int) == "-review"@);
    }
    id
}

/// What the custom provider is told to answer with, by the identifier of the agent's request.
pub open spec fn instructions(request_id: Seq<char>) -> Seq<char> {
    if text::has_suffix(request_id, "-review"@) {
        "Return only strict review JSON. Preserve refusal responses as refusals."@
    } else {
        "Return only the strict stage JSON contract. Do not invent completed outcomes or sources. Preserve refusal responses as refusals."@
    }
}

/// What the custom provider is told to answer with, by the identifier of the agent's request.
pub fn agent_instructions(request_id: &str) -> (words: &'static str)
    ensures
        words@ == instructions(request_id@),
{
    if text::ends_with(request_id, "-review") {
        "Return only strict review JSON. Preserve refusal responses as refusals."
    } else {
        "Return only the strict stage JSON contract. Do not invent completed outcomes or sources. Preserve refusal responses as refusals."
    }
}

/// One piece of an answer, or of what happens while it is made. A tool's `status` is the name of
/// the state that the tool is in.
#[derive(Clone, Debug, PartialEq, Eq)]
pub enum OpencodeEvent {
    Text(String),
    Reasoning(String),
    Status(String),
    Tool { name: String, status: String, detail: String },
    ToolEvidence(ToolEvidence),
    Error(String),
    Completed,
}

/// What waiting for the next piece came to.
#[derive(Clone, Debug, PartialEq, Eq)]
pub enum StreamPoll {
    /// The prompt was cancelled, or is not the active one any more.
    Stopped,
    /// Nothing came for too long.
    Inactive,
    /// The stream ended.
    Closed,
    /// The stream failed.
    Broken(String),
    /// A piece came.
    Event(OpencodeEvent),
}

/// How an answer from a stream ended.
#[derive(Clone, Debug, PartialEq, Eq)]
pub enum OpencodePromptResult {
    Completed(String),
    Cancelled,
    Failed(String),
}

/// How an answer ended, by its characters.
#[verifier::ext_equal]
pub ghost enum ResultView {
    Completed(Seq<char>),
    Cancelled,
    Failed(Seq<char>),
}

impl View for OpencodePromptResult {
    type V = ResultView;

    open spec fn view(&self) -> ResultView {
        match *self {
            OpencodePromptResult::Completed(answer) => ResultView::Completed(answer@),
            OpencodePromptResult::Cancelled => ResultView::Cancelled,
            OpencodePromptResult::Failed(message) => ResultView::Failed(message@),
        }
    }
}

/// What follows from a piece of an answer: something to publish, or the end.
#[derive(Clone, Debug, PartialEq, Eq)]
pub enum StreamStep {
    Publish(PromptExecutionEventPayload),
    End(OpencodePromptResult),
}

/// What follows from a piece, by its characters.
#[verifier::ext_equal]
pub ghost enum StreamView {
    Publish(EventView),
    End(ResultView),
}

impl View for StreamStep {
    type V = StreamView;

    open spec fn view(&self) -> StreamView {
        match *self {
            StreamStep::Publish(event) => StreamView::Publish(event@),
            StreamStep::End(result) => StreamView::End(result@),
        }
    }
}

/// The answer after another piece.
pub open spec fn extended(output: Seq<char>, poll: StreamPoll) -> Seq<char> {
    match poll {
        StreamPoll::Event(OpencodeEvent::Text(text)) => output + text@,
        _ => output,
    }
}

/// What follows from a piece, where `output` is the answer before it.
pub open spec fn streamed(output: Seq<char>, poll: StreamPoll) -> StreamView {
    match poll {
        StreamPoll::Stopped => StreamView::End(ResultView::Cancelled),
        StreamPoll::Inactive => StreamView::End(
            ResultView::Failed("OpenCode prompt timed out waiting for activity"@),
        ),
        StreamPoll::Closed => StreamView::End(
            ResultView::Failed("OpenCode event stream closed before completion"@),
        ),
        StreamPoll::Broken(error) => StreamView::End(ResultView::Failed(error@)),
        StreamPoll::Event(event) => match event {
            OpencodeEvent::Text(text) => StreamView::Publish(EventView::Text { text: text@ }),
            OpencodeEvent::Reasoning(text) => StreamView::Publish(
                EventView::Reasoning { text: text@ },
            ),
            OpencodeEvent::Status(message) => StreamView::Publish(
                EventView::Status { message: message@ },
            ),
            OpencodeEvent::Tool { name, status, detail } => StreamView::Publish(
                EventView::Tool {
                    tool: name@,
                    status: text::lowered(status@),
                    detail: detail@,
                },
            ),
            OpencodeEvent::ToolEvidence(evidence) => StreamView::Publish(
                EventView::Tool {
                    tool: evidence.tool@,
                    status: "completed"@,
                    detail: evidence.detail@,
                },
            ),
            OpencodeEvent::Error(message) => StreamView::End(ResultView::Failed(message@)),
            OpencodeEvent::Completed => StreamView::End(ResultView::Completed(output)),
        },
    }
}

/// Takes the next piece of an answer, of which `output` holds what came so far.
pub fn stream_opencode_prompt(output: &mut String, poll: StreamPoll) -> (step: StreamStep)
    ensures
        step@ == streamed(old(output)@, poll),
        final(output)@ == extended(old(output)@, poll),
{
    let event = match poll {
        StreamPoll::Stopped => {
            return StreamStep::End(OpencodePromptResult::Cancelled);
        },
        StreamPoll::Inactive => {
            return StreamStep::End(
                OpencodePromptResult::Failed(
                    "OpenCode prompt timed out waiting for activity".to_owned(),
                ),
            );
        },
        StreamPoll::Closed => {
            return StreamStep::End(
                OpencodePromptResult::Failed(
                    "OpenCode event stream closed before completion".to_owned(),
                ),
            );
        },
        StreamPoll::Broken(error) => {
            return StreamStep::End(OpencodePromptResult::Failed(error));
        },
        StreamPoll::Event(event) => event,
    };
    match event {
        OpencodeEvent::Text(text) => {
            output.append(text.as_str());
            StreamStep::Publish(PromptExecutionEventPayload::Text { text })
        },
        OpencodeEvent::Reasoning(text) => StreamStep::Publish(
            PromptExecutionEventPayload::Reasoning { text },
        ),
        OpencodeEvent::Status(message) => StreamStep::Publish(
            PromptExecutionEventPayload::Status { message },
        ),
        OpencodeEvent::Tool { name, status, detail } => StreamStep::Publish(
            PromptExecutionEventPayload::Tool {
                tool: name,
                status: to_ascii_lowercase(status.as_str()),
                detail,
            },
        ),
        OpencodeEvent::ToolEvidence(evidence) => StreamStep::Publish(
            PromptExecutionEventPayload::Tool {
                tool: evidence.tool,
                status: "completed".to_owned(),
                detail: evidence.detail,
            },
        ),
        OpencodeEvent::Error(message) => StreamStep::End(OpencodePromptResult::Failed(message)),
        OpencodeEvent::Completed => StreamStep::End(
            OpencodePromptResult::Completed(output.as_str().to_owned()),
        ),
    }
}

/// How an answer ends whose next piece could not be published.
pub fn end_unpublished_stream(error: PromptControlError) -> (result: OpencodePromptResult)
    ensures
        result@ == (match error {
            PromptControlError::Cancelled => ResultView::Cancelled,
            PromptControlError::Error(message) => ResultView::Failed(message@),
        }),
{
    match error {
        PromptControlError::Cancelled => OpencodePromptResult::Cancelled,
        PromptControlError::Error(message) => OpencodePromptResult::Failed(message),
    }
}

/// The answer after some pieces.
pub open spec fn answer_of(polls: Seq<StreamPoll>) -> Seq<char>
    decreases polls.len(),
{
    if polls.len() == 0 {
        seq![]
    } else {
        extended(answer_of(polls.drop_last()), polls.last())
    }
}

/// What was published of some pieces that did not end the answer.
pub open spec fn published(polls: Seq<StreamPoll>) -> Seq<EventView>
    decreases polls.len(),
{
    if polls.len() == 0 {
        seq![]
    } else {
        match streamed(answer_of(polls.drop_last()), polls.last()) {
            StreamView::Publish(event) => published(polls.drop_last()).push(event),
            StreamView::End(_) => published(polls.drop_last()),
        }
    }
}

/// The finished answer is what was shown of it: the texts that were published, one after the
/// other.
pub proof fn law_finished_answers_were_shown(polls: Seq<StreamPoll>)
    ensures
        answer_of(polls) == prompt_events::visible_text(published(polls)),
        streamed(answer_of(polls), StreamPoll::Event(OpencodeEvent::Completed)) == StreamView::End(
            ResultView::Completed(prompt_events::visible_text(published(polls))),
        ),
    decreases polls.len(),
{
    if polls.len() > 0 {
        law_finished_answers_were_shown(polls.drop_last());
        let before = published(polls.drop_last());
        let output = answer_of(polls.drop_last());
        match streamed(output, polls.last()) {
            StreamView::Publish(event) => {
                assert(published(polls) == before.push(event));
                assert(before.push(event).drop_last() == before);
                assert(before.push(event).last() == event);
                match polls.last() {
                    StreamPoll::Event(OpencodeEvent::Text(text)) => {},
                    _ => {
                        assert(output + Seq::<char>::empty() == output);
                    },
                }
            },
            StreamView::End(_) => {},
        }
    }
}

/// What an agent answered, and which tools it used.
#[derive(Clone, Debug, PartialEq, Eq)]
pub struct AgentTextResult {
    pub text: String,
    pub evidence: Vec<ToolEvidence>,
    pub refusal: bool,
}

/// An agent's answer as far as it came.
#[derive(Debug, PartialEq, Eq)]
pub struct AgentCollection {
    pub output: String,
    pub evidence: Vec<ToolEvidence>,
}

impl AgentCollection {
    /// An answer of which nothing has come yet.
    pub fn new() -> (collection: Self)
        ensures
            collection.output@ == Seq::<char>::empty(),
            collection.evidence@ == Seq::<ToolEvidence>::empty(),
    {
        AgentCollection { output: String::new(), evidence: Vec::new() }
    }

    /// The end that a piece brings, where it brings one.
    pub open spec fn end(self, poll: StreamPoll) -> Option<Result<Seq<char>, Seq<char>>> {
        match poll {
            StreamPoll::Stopped => Some(Err("assistant request cancelled"@)),
            StreamPoll::Inactive => Some(Err("OpenCode agent timed out"@)),
            StreamPoll::Closed => Some(Err("OpenCode agent stream closed"@)),
            StreamPoll::Broken(error) => Some(Err(error@)),
            StreamPoll::Event(event) => match event {
                OpencodeEvent::Error(message) => Some(Err(message@)),
                OpencodeEvent::Completed => if text::trimmed(self.output@).len() == 0 {
                    Some(Err("OpenCode agent completed without visible text"@))
                } else {
                    Some(Ok(self.output@))
                },
                _ => None,
            },
        }
    }

    /// Takes the next piece of an agent's answer, and gives the answer where it is finished.
    pub fn collect(&mut self, poll: StreamPoll) -> (result: Option<Result<AgentTextResult, String>>)
        ensures
            match result {
                Some(Ok(answer)) => old(self).end(poll) == Some(
                    Ok::<Seq<char>, Seq<char>>(answer.text@),
                ) && answer.evidence@ == old(self).evidence@ && !answer.refusal,
                Some(Err(message)) => old(self).end(poll) == Some(
                    Err::<Seq<char>, Seq<char>>(message@),
                ),
                None => old(self).end(poll) is None && final(self).output@ == extended(
                    old(self).output@,
                    poll,
                ) && final(self).evidence@ == (match poll {
                    StreamPoll::Event(OpencodeEvent::ToolEvidence(evidence)) => old(
                        self,
                    ).evidence@.push(evidence),
                    _ => old(self).evidence@,
                }),
            },
    {
        let event = match poll {
            StreamPoll::Stopped => {
                return Some(Err("assistant request cancelled".to_owned()));
            },
            StreamPoll::Inactive => {
                return Some(Err("OpenCode agent timed out".to_owned()));
            },
            StreamPoll::Closed => {
                return Some(Err("OpenCode agent stream closed".to_owned()));
            },
            StreamPoll::Broken(error) => {
                return Some(Err(error));
            },
            StreamPoll::Event(event) => event,
        };
        match event {
            OpencodeEvent::Text(text) => {
                self.output.append(text.as_str());
                None
            },
            OpencodeEvent::Error(message) => Some(Err(message)),
            OpencodeEvent::Completed => {
                if trim(self.output.as_str()).is_empty() {
                    return Some(
                        Err("OpenCode agent completed without visible text".to_owned()),
                    );
                }
                let mut evidence: Vec<ToolEvidence> = Vec::new();
                std::mem::swap(&mut evidence, &mut self.evidence);
                Some(
                    Ok(
                        AgentTextResult {
                            text: self.output.as_str().to_owned(),
                            evidence,
                            refusal: false,
                        },
                    ),
                )
            },
            OpencodeEvent::ToolEvidence(evidence) => {
                self.evidence.push(evidence);
                None
            },
            OpencodeEvent::Reasoning(_) => None,
            OpencodeEvent::Status(_) => None,
            OpencodeEvent::Tool { .. } => None,
        }
    }
}

/// What happened to an agent that was asked for an answer.
#[derive(Debug, PartialEq, Eq)]
pub enum AgentTextEvent {
    /// The answer was asked for. `cancelled` says whether its request was given up already.
    Begun { cancelled: bool },
    /// The request was given up while the custom provider answered.
    Stopped,
    /// The custom provider could not be asked, or did not answer.
    Failed { error: String },
    /// The custom provider answered, or refused to.
    Answered { text: String, refusal: bool },
    /// The OpenCode session answered, or not.
    Collected { result: Result<AgentTextResult, String> },
}

/// What is done next for an agent's answer.
#[derive(Debug, PartialEq, Eq)]
pub enum AgentTextStep {
    /// Ask the custom provider, with these instructions.
    AskCustom { instructions: &'static str },
    /// Ask an OpenCode session of its own.
    AskOpencode,
    /// Nothing more.
    End { result: Result<AgentTextResult, String> },
}

/// What is done next for an agent's answer, by its characters.
#[verifier::ext_equal]
pub ghost enum AgentTextView {
    AskCustom { instructions: Seq<char> },
    AskOpencode,
    End { result: Result<(Seq<char>, Seq<ToolEvidence>, bool), Seq<char>> },
}

/// An agent's answer, or why there is none, by its characters.
pub open spec fn agent_result(result: Result<AgentTextResult, String>) -> Result<
    (Seq<char>, Seq<ToolEvidence>, bool),
    Seq<char>,
> {
    match result {
        Ok(answer) => Ok((answer.text@, answer.evidence@, answer.refusal)),
        Err(error) => Err(error@),
    }
}

impl View for AgentTextStep {
    type V = AgentTextView;

    open spec fn view(&self) -> AgentTextView {
        match *self {
            AgentTextStep::AskCustom { instructions } => AgentTextView::AskCustom {
                instructions: instructions@,
            },
            AgentTextStep::AskOpencode => AgentTextView::AskOpencode,
            AgentTextStep::End { result } => AgentTextView::End { result: agent_result(result) },
        }
    }
}

/// What is done after an event for the answer of an agent that runs `model`.
pub open spec fn agent_text_step(
    model: AgentModel,
    custom_configured: bool,
    server_available: bool,
    request_id: Seq<char>,
    event: AgentTextEvent,
) -> AgentTextView {
    match event {
        AgentTextEvent::Begun { cancelled } => if cancelled {
            AgentTextView::End { result: Err("assistant request cancelled"@) }
        } else {
            match prompt_events::agent_obstacle(model, custom_configured, server_available) {
                Some(error) => AgentTextView::End { result: Err(error) },
                None => if prompt_events::agent_provider_of(model) is OpenCode {
                    AgentTextView::AskOpencode
                } else {
                    AgentTextView::AskCustom { instructions: instructions(request_id) }
                },
            }
        },
        AgentTextEvent::Stopped => AgentTextView::End {
            result: Err("assistant request cancelled"@),
        },
        AgentTextEvent::Failed { error } => AgentTextView::End { result: Err(error@) },
        AgentTextEvent::Answered { text, refusal } => AgentTextView::End {
            result: Ok((text@, Seq::empty(), refusal)),
        },
        AgentTextEvent::Collected { result } => AgentTextView::End { result: agent_result(result) },
    }
}

/// Decides what is done after an event for the answer of an agent that runs `model`.
pub fn run_agent_text(
    model: AgentModel,
    custom_configured: bool,
    server_available: bool,
    request_id: &str,
    event: AgentTextEvent,
) -> (step: AgentTextStep)
    ensures
        step@ == agent_text_step(
            model,
            custom_configured,
            server_available,
            request_id@,
            event,
        ),
{
    match event {
        AgentTextEvent::Begun { cancelled } => {
            if cancelled {
                return AgentTextStep::End { result: Err("assistant request cancelled".to_owned()) };
            }
            match ensure_agent_prerequisites(model, custom_configured, server_available) {
                Err(error) => AgentTextStep::End { result: Err(error) },
                Ok(_) => match agent_provider(model) {
                    ModelProvider::OpenCode => AgentTextStep::AskOpencode,
                    _ => AgentTextStep::AskCustom { instructions: agent_instructions(request_id) },
                },
            }
        },
        AgentTextEvent::Stopped => AgentTextStep::End {
            result: Err("assistant request cancelled".to_owned()),
        },
        AgentTextEvent::Failed { error } => AgentTextStep::End { result: Err(error) },
        AgentTextEvent::Answered { text, refusal } => AgentTextStep::End {
            result: Ok(AgentTextResult { text, evidence: Vec::new(), refusal }),
        },
        AgentTextEvent::Collected { result } => AgentTextStep::End { result },
    }
}

/// Every piece of an answer is shown as what it is: words, thoughts, messages and uses of tools,
/// the latter with the name of their state in lower case. Only words become part of the answer.
pub proof fn law_pieces_are_shown_as_what_they_are(
    output: Seq<char>,
    words: String,
    name: String,
    detail: String,
    evidence: ToolEvidence,
)
    ensures
        ({
            let text = StreamPoll::Event(OpencodeEvent::Text(words));
            let reasoning = StreamPoll::Event(OpencodeEvent::Reasoning(words));
            let status = StreamPoll::Event(OpencodeEvent::Status(words));
            let tool = StreamPoll::Event(OpencodeEvent::Tool { name, status: words, detail });
            let used = StreamPoll::Event(OpencodeEvent::ToolEvidence(evidence));
            &&& streamed(output, text) == StreamView::Publish(EventView::Text { text: words@ })
            &&& extended(output, text) == output + words@
            &&& streamed(output, reasoning) == StreamView::Publish(
                EventView::Reasoning { text: words@ },
            )
            &&& streamed(output, status) == StreamView::Publish(
                EventView::Status { message: words@ },
            )
            &&& streamed(output, tool) == StreamView::Publish(
                EventView::Tool {
                    tool: name@,
                    status: text::lowered(words@),
                    detail: detail@,
                },
            )
            &&& streamed(output, used) == StreamView::Publish(
                EventView::Tool {
                    tool: evidence.tool@,
                    status: "completed"@,
                    detail: evidence.detail@,
                },
            )
            &&& extended(output, reasoning) == output
            &&& extended(output, status) == output
            &&& extended(output, tool) == output
            &&& extended(output, used) == output
        }),
{
}

/// An answer ends exactly where the stream says so: completed with all of its words where it is
/// completed, cancelled where the prompt was stopped, and failed, with the reason, otherwise.
pub proof fn law_streams_end_as_they_say(output: Seq<char>, poll: StreamPoll, message: String)
    ensures
        ({
            let end = streamed(output, poll);
            let completed = poll matches StreamPoll::Event(event) && event is Completed;
            let failed = poll is Inactive || poll is Closed || poll is Broken || (
            poll matches StreamPoll::Event(event) && event is Error);
            &&& completed <==> end == StreamView::End(ResultView::Completed(output))
            &&& poll is Stopped <==> end == StreamView::End(ResultView::Cancelled)
            &&& failed <==> (end matches StreamView::End(result) && result is Failed)
            &&& poll is Inactive ==> end == StreamView::End(
                ResultView::Failed("OpenCode prompt timed out waiting for activity"@),
            )
            &&& poll is Closed ==> end == StreamView::End(
                ResultView::Failed("OpenCode event stream closed before completion"@),
            )
            &&& streamed(output, StreamPoll::Broken(message)) == StreamView::End(
                ResultView::Failed(message@),
            )
            &&& streamed(output, StreamPoll::Event(OpencodeEvent::Error(message)))
                == StreamView::End(ResultView::Failed(message@))
            &&& completed || poll is Stopped || failed ==> extended(output, poll) == output
        }),
{
}

/// An agent's answer ends where its stream does, with its words where there are any; nothing else
/// ends it.
pub proof fn law_agents_answer_with_their_words(
    collection: AgentCollection,
    poll: StreamPoll,
    message: String,
)
    ensures
        ({
            let end = collection.end(poll);
            let goes_on = poll matches StreamPoll::Event(event) && !(event is Error) && !(event
                is Completed);
            let blank = text::trimmed(collection.output@).len() == 0;
            let completed = collection.end(StreamPoll::Event(OpencodeEvent::Completed));
            &&& goes_on <==> end is None
            &&& !blank ==> completed == Some(Ok::<Seq<char>, Seq<char>>(collection.output@))
            &&& blank ==> completed == Some(
                Err::<Seq<char>, Seq<char>>("OpenCode agent completed without visible text"@),
            )
            &&& poll is Stopped ==> end == Some(
                Err::<Seq<char>, Seq<char>>("assistant request cancelled"@),
            )
            &&& poll is Inactive ==> end == Some(
                Err::<Seq<char>, Seq<char>>("OpenCode agent timed out"@),
            )
            &&& poll is Closed ==> end == Some(
                Err::<Seq<char>, Seq<char>>("OpenCode agent stream closed"@),
            )
            &&& collection.end(StreamPoll::Broken(message)) == Some(
                Err::<Seq<char>, Seq<char>>(message@),
            )
            &&& collection.end(StreamPoll::Event(OpencodeEvent::Error(message))) == Some(
                Err::<Seq<char>, Seq<char>>(message@),
            )
        }),
{
}

/// An agent is asked where its own provider is, with the instructions of its stage, and not at all
/// once its request was given up; what it answers, refuses or fails with is handed on as it is.
pub proof fn law_agents_are_asked_of_their_provider(
    model: AgentModel,
    custom_configured: bool,
    server_available: bool,
    request_id: Seq<char>,
    words: String,
    refusal: bool,
    error: String,
    result: Result<AgentTextResult, String>,
)
    ensures
        ({
            let step = |event: AgentTextEvent|
                agent_text_step(model, custom_configured, server_available, request_id, event);
            let custom = model is CustomSolHigh || model is CustomLunaLow;
            let begun = step(AgentTextEvent::Begun { cancelled: false });
            let given_up = AgentTextView::End { result: Err("assistant request cancelled"@) };
            &&& step(AgentTextEvent::Begun { cancelled: true }) == given_up
            &&& step(AgentTextEvent::Stopped) == given_up
            &&& custom && custom_configured <==> begun is AskCustom
            &&& !custom && server_available <==> begun is AskOpencode
            &&& custom && !custom_configured ==> begun == (AgentTextView::End {
                result: Err("Custom provider is not configured"@),
            })
            &&& !custom && !server_available ==> begun == (AgentTextView::End {
                result: Err("OpenCode server is not available"@),
            })
            &&& begun matches AgentTextView::AskCustom { instructions: told } ==> told == (if exists|
                name: Seq<char>,
            | request_id == #[trigger] (name + "-review"@) {
                "Return only strict review JSON. Preserve refusal responses as refusals."@
            } else {
                "Return only the strict stage JSON contract. Do not invent completed outcomes or sources. Preserve refusal responses as refusals."@
            })
            &&& step(AgentTextEvent::Failed { error }) == (AgentTextView::End {
                result: Err(error@),
            })
            &&& step(AgentTextEvent::Answered { text: words, refusal }) == (AgentTextView::End {
                result: Ok((words@, Seq::empty(), refusal)),
            })
            &&& step(AgentTextEvent::Collected { result }) == (AgentTextView::End {
                result: match result {
                    Ok(answer) => Ok((answer.text@, answer.evidence@, answer.refusal)),
                    Err(failure) => Err(failure@),
                },
            })
        }),
{
    let review = "-review"@;
    text::law_found_parts_are_there(request_id, review);
    if exists|name: Seq<char>| request_id == #[trigger] (name + review) {
        let name = choose|name: Seq<char>| request_id == #[trigger] (name + review);
        text::law_parts_are_found(name, review, seq![]);
    }
}

/// The stages of a request run under names of their own: the Review stage is told what reviews
/// answer with, the Deep stage is not, and requests that differ have different names.
pub proof fn law_stages_run_under_names_of_their_own(one: Seq<char>, other: Seq<char>)
    ensures
        deep_request(one) == one + "-deep"@,
        review_request(one) == one + "-review"@,
        agent_message(one) == "agent-"@ + one,
        instructions(review_request(one))
            == "Return only strict review JSON. Preserve refusal responses as refusals."@,
        instructions(deep_request(one))
            == "Return only the strict stage JSON contract. Do not invent completed outcomes or sources. Preserve refusal responses as refusals."@,
        deep_request(one) == deep_request(other) ==> one == other,
        review_request(one) == review_request(other) ==> one == other,
        agent_message(one) == agent_message(other) ==> one == other,
{
    reveal_strlit("-deep");
    reveal_strlit("-review");
    let deep = deep_request(one);
    let review = review_request(one);
    assert(review.skip(review.len() - 7) == "-review"@);
    if text::has_suffix(deep, "-review"@) {
        assert(deep.skip(deep.len() - 7)[6] == "-review"@[6]);
        assert(deep[deep.len() - 1] == "-deep"@[4]);
    }
    if deep_request(one) == deep_request(other) {
        assert(deep.take(one.len() as int) == one);
        assert(deep_request(other).take(other.len() as int) == other);
    }
    if review_request(one) == review_request(other) {
        assert(review.take(one.len() as int) == one);
        assert(review_request(other).take(other.len() as int) == other);
    }
    if agent_message(one) == agent_message(other) {
        let prefix = "agent-"@;
        assert(agent_message(one).skip(prefix.len() as int) == one);
        assert(agent_message(other).skip(prefix.len() as int) == other);
    }
}

/// The server is asked for the model that was chosen, and only for one of its own.
pub proof fn law_chosen_models_are_asked_for(model: InstantModel)
    ensures
        opencode_model_of(model) == Ok::<OpencodeModel, Seq<char>>(OpencodeModel::Gpt56SolHigh)
            <==> model is OpenCodeSolHigh,
        opencode_model_of(model) == Ok::<OpencodeModel, Seq<char>>(OpencodeModel::Gpt56LunaLow)
            <==> model is OpenCodeLunaLow,
        opencode_model_of(model) is Err <==> !(model is OpenCodeSolHigh) && !(model
            is OpenCodeLunaLow),
        opencode_model_of(model) matches Err(message) ==> message
            == "invalid OpenCode model selection"@,
{
}

} // verus!
