//! A single prompt without tools, and what the host gets back of its calls.
use vstd::prelude::*;
use vstd::string::*;

use crate::bridge::{strip_nul, without_nul};
use crate::chat::{ResponsesApiRequest, ResponsesApiRequestModel};
use crate::chat_stream::{ResponseEvent, ResponseEventModel};
use crate::lists::lemma_empty_content;
use crate::model::Modeled;
use crate::protocol::{ContentItem, ContentItemModel, ResponseItem, ResponseItemModel};
use crate::text::{chars_of, glue, same_text};

verus! {

/// A header of a request.
#[derive(Debug, PartialEq, Eq)]
pub struct Header {
    pub name: String,
    pub value: String,
}

/// The mathematical content of a [`Header`].
pub struct HeaderModel {
    pub name: Seq<char>,
    pub value: Seq<char>,
}

impl DeepView for Header {
    type V = HeaderModel;

    open spec fn deep_view(&self) -> HeaderModel {
        HeaderModel {
            name: self.name.deep_view(),
            value: self.value.deep_view(),
        }
    }
}

impl Modeled for Header {
    fn duplicate(&self) -> (r: Self) {
        Header {
            name: self.name.duplicate(),
            value: self.value.duplicate(),
        }
    }

    fn same(&self, other: &Self) -> (r: bool) {
        self.name.same(&other.name)
            && self.value.same(&other.value)
    }
}

impl Clone for Header {
    fn clone(&self) -> (r: Self)
        ensures
            r.deep_view() == self.deep_view(),
    {
        self.duplicate()
    }
}

/// The backend of a single prompt.
#[derive(Debug, PartialEq, Eq)]
pub struct ProviderSettings {
    pub name: String,
    pub base_url: String,
    pub headers: Vec<Header>,
    pub max_attempts: u64,
    pub base_delay_millis: u64,
    pub retry_429: bool,
    pub retry_5xx: bool,
    pub retry_transport: bool,
    pub stream_idle_timeout_secs: u64,
}

/// The mathematical content of a [`ProviderSettings`].
pub struct ProviderSettingsModel {
    pub name: Seq<char>,
    pub base_url: Seq<char>,
    pub headers: Seq<HeaderModel>,
    pub max_attempts: u64,
    pub base_delay_millis: u64,
    pub retry_429: bool,
    pub retry_5xx: bool,
    pub retry_transport: bool,
    pub stream_idle_timeout_secs: u64,
}

impl DeepView for ProviderSettings {
    type V = ProviderSettingsModel;

    open spec fn deep_view(&self) -> ProviderSettingsModel {
        ProviderSettingsModel {
            name: self.name.deep_view(),
            base_url: self.base_url.deep_view(),
            headers: self.headers.deep_view(),
            max_attempts: self.max_attempts,
            base_delay_millis: self.base_delay_millis,
            retry_429: self.retry_429,
            retry_5xx: self.retry_5xx,
            retry_transport: self.retry_transport,
            stream_idle_timeout_secs: self.stream_idle_timeout_secs,
        }
    }
}

impl Modeled for ProviderSettings {
    fn duplicate(&self) -> (r: Self) {
        ProviderSettings {
            name: self.name.duplicate(),
            base_url: self.base_url.duplicate(),
            headers: self.headers.duplicate(),
            max_attempts: self.max_attempts,
            base_delay_millis: self.base_delay_millis,
            retry_429: self.retry_429,
            retry_5xx: self.retry_5xx,
            retry_transport: self.retry_transport,
            stream_idle_timeout_secs: self.stream_idle_timeout_secs,
        }
    }

    fn same(&self, other: &Self) -> (r: bool) {
        self.name.same(&other.name)
            && self.base_url.same(&other.base_url)
            && self.headers.same(&other.headers)
            && self.max_attempts == other.max_attempts
            && self.base_delay_millis == other.base_delay_millis
            && self.retry_429 == other.retry_429
            && self.retry_5xx == other.retry_5xx
            && self.retry_transport == other.retry_transport
            && self.stream_idle_timeout_secs == other.stream_idle_timeout_secs
    }
}

impl Clone for ProviderSettings {
    fn clone(&self) -> (r: Self)
        ensures
            r.deep_view() == self.deep_view(),
    {
        self.duplicate()
    }
}

/// What is to be done after an event of an answer.
#[derive(Debug, PartialEq, Eq)]
pub enum PromptStep {
    Continue,
    Finish,
    Fail { problem: String },
}

/// The mathematical content of a [`PromptStep`].
pub enum PromptStepModel {
    Continue,
    Finish,
    Fail { problem: Seq<char> },
}

impl DeepView for PromptStep {
    type V = PromptStepModel;

    open spec fn deep_view(&self) -> PromptStepModel {
        match self {
            PromptStep::Continue => PromptStepModel::Continue,
            PromptStep::Finish => PromptStepModel::Finish,
            PromptStep::Fail { problem } => PromptStepModel::Fail { problem: problem.deep_view() },
        }
    }
}

impl Modeled for PromptStep {
    fn duplicate(&self) -> (r: Self) {
        match self {
            PromptStep::Continue => PromptStep::Continue,
            PromptStep::Finish => PromptStep::Finish,
            PromptStep::Fail { problem } => PromptStep::Fail { problem: problem.duplicate() },
        }
    }

    fn same(&self, other: &Self) -> (r: bool) {
        match (self, other) {
            (PromptStep::Continue, PromptStep::Continue) => true,
            (PromptStep::Finish, PromptStep::Finish) => true,
            (PromptStep::Fail { problem }, PromptStep::Fail { problem: problem_other }) => {
                problem.same(problem_other)
            },
            _ => false,
        }
    }
}

impl Clone for PromptStep {
    fn clone(&self) -> (r: Self)
        ensures
            r.deep_view() == self.deep_view(),
    {
        self.duplicate()
    }
}

/// The text of an answer as far as it has been received.
#[derive(Debug, PartialEq, Eq)]
pub struct PromptAnswer {
    pub text: String,
}

/// The mathematical content of a [`PromptAnswer`].
pub struct PromptAnswerModel {
    pub text: Seq<char>,
}

impl DeepView for PromptAnswer {
    type V = PromptAnswerModel;

    open spec fn deep_view(&self) -> PromptAnswerModel {
        PromptAnswerModel {
            text: self.text.deep_view(),
        }
    }
}

impl Modeled for PromptAnswer {
    fn duplicate(&self) -> (r: Self) {
        PromptAnswer {
            text: self.text.duplicate(),
        }
    }

    fn same(&self, other: &Self) -> (r: bool) {
        self.text.same(&other.text)
    }
}

impl Clone for PromptAnswer {
    fn clone(&self) -> (r: Self)
        ensures
            r.deep_view() == self.deep_view(),
    {
        self.duplicate()
    }
}

/// What became of a call from the host.
#[derive(Debug, PartialEq, Eq)]
pub enum CallOutcome {
    Text(String),
    Failed(String),
    Panicked,
}

/// The mathematical content of a [`CallOutcome`].
pub enum CallOutcomeModel {
    Text(Seq<char>),
    Failed(Seq<char>),
    Panicked,
}

impl DeepView for CallOutcome {
    type V = CallOutcomeModel;

    open spec fn deep_view(&self) -> CallOutcomeModel {
        match self {
            CallOutcome::Text(x) => CallOutcomeModel::Text(x.deep_view()),
            CallOutcome::Failed(x) => CallOutcomeModel::Failed(x.deep_view()),
            CallOutcome::Panicked => CallOutcomeModel::Panicked,
        }
    }
}

impl Modeled for CallOutcome {
    fn duplicate(&self) -> (r: Self) {
        match self {
            CallOutcome::Text(x) => CallOutcome::Text(x.duplicate()),
            CallOutcome::Failed(x) => CallOutcome::Failed(x.duplicate()),
            CallOutcome::Panicked => CallOutcome::Panicked,
        }
    }

    fn same(&self, other: &Self) -> (r: bool) {
        match (self, other) {
            (CallOutcome::Text(x), CallOutcome::Text(x_other)) => x.same(x_other),
            (CallOutcome::Failed(x), CallOutcome::Failed(x_other)) => x.same(x_other),
            (CallOutcome::Panicked, CallOutcome::Panicked) => true,
            _ => false,
        }
    }
}

impl Clone for CallOutcome {
    fn clone(&self) -> (r: Self)
        ensures
            r.deep_view() == self.deep_view(),
    {
        self.duplicate()
    }
}

/// What a remote command reports.
#[derive(Debug, PartialEq, Eq)]
pub enum CommandReport {
    /// Some of its output, whichever stream it was written to.
    Output(Vec<u8>),
    ExitStatus(u32),
    Other,
}

/// The mathematical content of a [`CommandReport`].
pub enum CommandReportModel {
    Output(Seq<u8>),
    ExitStatus(u32),
    Other,
}

impl DeepView for CommandReport {
    type V = CommandReportModel;

    open spec fn deep_view(&self) -> CommandReportModel {
        match self {
            CommandReport::Output(x) => CommandReportModel::Output(x.deep_view()),
            CommandReport::ExitStatus(x) => CommandReportModel::ExitStatus(*x),
            CommandReport::Other => CommandReportModel::Other,
        }
    }
}

impl Modeled for CommandReport {
    fn duplicate(&self) -> (r: Self) {
        match self {
            CommandReport::Output(x) => CommandReport::Output(x.duplicate()),
            CommandReport::ExitStatus(x) => CommandReport::ExitStatus(*x),
            CommandReport::Other => CommandReport::Other,
        }
    }

    fn same(&self, other: &Self) -> (r: bool) {
        match (self, other) {
            (CommandReport::Output(x), CommandReport::Output(x_other)) => x.same(x_other),
            (CommandReport::ExitStatus(x), CommandReport::ExitStatus(x_other)) => *x == *x_other,
            (CommandReport::Other, CommandReport::Other) => true,
            _ => false,
        }
    }
}

impl Clone for CommandReport {
    fn clone(&self) -> (r: Self)
        ensures
            r.deep_view() == self.deep_view(),
    {
        self.duplicate()
    }
}

/// What a remote command has reported.
#[derive(Debug, PartialEq, Eq)]
pub struct CommandCapture {
    pub output: Vec<u8>,
    pub exit_status: Option<u32>,
}

/// The mathematical content of a [`CommandCapture`].
pub struct CommandCaptureModel {
    pub output: Seq<u8>,
    pub exit_status: Option<u32>,
}

impl DeepView for CommandCapture {
    type V = CommandCaptureModel;

    open spec fn deep_view(&self) -> CommandCaptureModel {
        CommandCaptureModel {
            output: self.output.deep_view(),
            exit_status: self.exit_status.deep_view(),
        }
    }
}

impl Modeled for CommandCapture {
    fn duplicate(&self) -> (r: Self) {
        CommandCapture {
            output: self.output.duplicate(),
            exit_status: self.exit_status.duplicate(),
        }
    }

    fn same(&self, other: &Self) -> (r: bool) {
        self.output.same(&other.output)
            && self.exit_status.same(&other.exit_status)
    }
}

impl Clone for CommandCapture {
    fn clone(&self) -> (r: Self)
        ensures
            r.deep_view() == self.deep_view(),
    {
        self.duplicate()
    }
}


// ---------------------------------------------------------------------------------------------
// The request

/// The backend of a single prompt: the ChatGPT backend, which admits by the originator header.
pub open spec fn chatgpt_backend() -> ProviderSettingsModel {
    ProviderSettingsModel {
        name: "openai-codex"@,
        base_url: "https://chatgpt.com/backend-api/codex"@,
        headers: seq![
            HeaderModel { name: "originator"@, value: "codex_cli_rs"@ },
            HeaderModel {
                name: "user-agent"@,
                value: "codex_cli_rs/0.0.0 (iOS 26.5; arm64) CodexIOS"@,
            },
        ],
        max_attempts: 3,
        base_delay_millis: 500,
        retry_429: true,
        retry_5xx: true,
        retry_transport: true,
        stream_idle_timeout_secs: 60,
    }
}

/// The backend of a single prompt.
pub fn build_provider() -> (r: ProviderSettings)
    ensures
        r.deep_view() == chatgpt_backend(),
{
    let mut headers: Vec<Header> = Vec::new();
    headers.push(Header { name: "originator".to_string(), value: "codex_cli_rs".to_string() });
    headers.push(
        Header {
            name: "user-agent".to_string(),
            value: "codex_cli_rs/0.0.0 (iOS 26.5; arm64) CodexIOS".to_string(),
        },
    );
    assert(headers.deep_view() =~= chatgpt_backend().headers);
    ProviderSettings {
        name: "openai-codex".to_string(),
        base_url: "https://chatgpt.com/backend-api/codex".to_string(),
        headers,
        max_attempts: 3,
        base_delay_millis: 500,
        retry_429: true,
        retry_5xx: true,
        retry_transport: true,
        stream_idle_timeout_secs: 60,
    }
}

/// The headers that authenticate a request. One that is no valid header is left out by the caller.
pub fn auth_headers(token: &str, account_id: &str) -> (r: Vec<Header>)
    ensures
        r.deep_view() == seq![
            HeaderModel { name: "authorization"@, value: "Bearer "@ + token@ },
            HeaderModel { name: "ChatGPT-Account-ID"@, value: account_id@ },
        ],
{
    let mut headers: Vec<Header> = Vec::new();
    headers.push(Header { name: "authorization".to_string(), value: glue("Bearer ", token) });
    headers.push(
        Header { name: "ChatGPT-Account-ID".to_string(), value: account_id.to_owned() },
    );
    assert(headers.deep_view() =~= seq![
        HeaderModel { name: "authorization"@, value: "Bearer "@ + token@ },
        HeaderModel { name: "ChatGPT-Account-ID"@, value: account_id@ },
    ]);
    headers
}

/// The request of a single prompt: one message of the user, streamed and not stored.
pub open spec fn prompt_request(model: Seq<char>, prompt: Seq<char>) -> ResponsesApiRequestModel {
    ResponsesApiRequestModel {
        model,
        instructions: "You are a helpful assistant."@,
        input: seq![
            ResponseItemModel::Message {
                id: None,
                role: "user"@,
                content: seq![ContentItemModel::InputText { text: prompt }],
                phase: None,
                internal_chat_message_metadata_passthrough: None,
            },
        ],
        tools: None,
        tool_choice: "auto"@,
        parallel_tool_calls: false,
        reasoning: None,
        store: false,
        stream: true,
        included: Seq::empty(),
        service_tier: None,
        prompt_cache_key: None,
        text: None,
        client_metadata: None,
    }
}

/// The request of a single prompt.
pub fn build_request(model: String, prompt: String) -> (r: ResponsesApiRequest)
    ensures
        r.deep_view() == prompt_request(model@, prompt@),
{
    let ghost said = prompt@;
    let mut content: Vec<ContentItem> = Vec::new();
    content.push(ContentItem::InputText { text: prompt });
    assert(content.deep_view() =~= seq![ContentItemModel::InputText { text: said }]);
    let mut input: Vec<ResponseItem> = Vec::new();
    let message = ResponseItem::Message {
        id: None,
        role: "user".to_string(),
        content,
        phase: None,
        internal_chat_message_metadata_passthrough: None,
    };
    input.push(message);
    assert(input.deep_view() =~= seq![message.deep_view()]);
    let included: Vec<String> = Vec::new();
    proof {
        lemma_empty_content(included);
    }
    ResponsesApiRequest {
        model,
        instructions: "You are a helpful assistant.".to_string(),
        input,
        tools: None,
        tool_choice: "auto".to_string(),
        parallel_tool_calls: false,
        reasoning: None,
        store: false,
        stream: true,
        included,
        service_tier: None,
        prompt_cache_key: None,
        text: None,
        client_metadata: None,
    }
}

// ---------------------------------------------------------------------------------------------
// The answer

/// All output text of a message, put together.
pub open spec fn output_text_of(content: Seq<ContentItemModel>) -> Seq<char>
    decreases content.len(),
{
    if content.len() == 0 {
        Seq::empty()
    } else {
        output_text_of(content.drop_last()) + match content.last() {
            ContentItemModel::OutputText { text } => text,
            _ => Seq::empty(),
        }
    }
}

/// The answer after an event, and what is to be done. A finished message counts only if nothing
/// was streamed before it.
pub open spec fn answer_step(text: Seq<char>, event: ResponseEventModel) -> (
    Seq<char>,
    PromptStepModel,
) {
    match event {
        ResponseEventModel::OutputTextDelta(delta) => (text + delta, PromptStepModel::Continue),
        ResponseEventModel::OutputItemDone(ResponseItemModel::Message { role, content, .. }) =>
            if text.len() == 0 && role == "assistant"@ {
                (output_text_of(content), PromptStepModel::Continue)
            } else {
                (text, PromptStepModel::Continue)
            },
        ResponseEventModel::Completed { .. } => (text, PromptStepModel::Finish),
        ResponseEventModel::Failed { message } => (
            text,
            PromptStepModel::Fail { problem: "stream error: "@ + message },
        ),
        _ => (text, PromptStepModel::Continue),
    }
}

fn collect_output(content: &Vec<ContentItem>) -> (r: String)
    ensures
        r@ == output_text_of(content.deep_view()),
{
    let ghost model = content.deep_view();
    let mut out = String::new();
    let mut i: usize = 0;
    assert(out@ =~= output_text_of(model.take(0)));
    while i < content.len()
        invariant
            i <= content@.len(),
            model == content.deep_view(),
            model.len() == content@.len(),
            out@ == output_text_of(model.take(i as int)),
        decreases content.len() - i,
    {
        proof {
            assert(model[i as int] == content@[i as int].deep_view());
            assert(model.take(i + 1).drop_last() =~= model.take(i as int));
            assert(model.take(i + 1).last() == model[i as int]);
        }
        if let ContentItem::OutputText { text } = &content[i] {
            out.append(text.as_str());
        }
        i = i + 1;
        assert(out@ =~= output_text_of(model.take(i as int)));
    }
    assert(model.take(model.len() as int) =~= model);
    out
}

impl PromptAnswer {
    /// An answer of which nothing has been received.
    pub fn new() -> (r: Self)
        ensures
            r.text@ == Seq::<char>::empty(),
    {
        let text = String::new();
        assert(text@ =~= Seq::empty());
        PromptAnswer { text }
    }

    /// Takes the next event of the answer, and says what is to be done.
    pub fn accept(&mut self, event: &ResponseEvent) -> (r: PromptStep)
        ensures
            (final(self).text@, r.deep_view()) == answer_step(old(self).text@, event.deep_view()),
    {
        match event {
            ResponseEvent::OutputTextDelta(delta) => {
                self.text.append(delta.as_str());
                PromptStep::Continue
            },
            ResponseEvent::OutputItemDone(ResponseItem::Message { role, content, .. }) => {
                if self.text.as_str().is_empty() && same_text(role.as_str(), "assistant") {
                    self.text = collect_output(content);
                }
                PromptStep::Continue
            },
            ResponseEvent::Completed { .. } => PromptStep::Finish,
            ResponseEvent::Failed { message } => PromptStep::Fail {
                problem: glue("stream error: ", message.as_str()),
            },
            _ => PromptStep::Continue,
        }
    }
}

/// A streamed answer is not told twice: once anything was streamed, a finished message adds
/// nothing.
pub proof fn law_streamed_answers_are_not_repeated(text: Seq<char>, item: ResponseItemModel)
    requires
        text.len() > 0,
    ensures
        answer_step(text, ResponseEventModel::OutputItemDone(item)) == (
            text,
            PromptStepModel::Continue,
        ),
{
}

// ---------------------------------------------------------------------------------------------
// What the host gets back

/// The text that a call gives back: its result, or an error behind `ERROR: `. NUL characters are
/// taken out, since no C string can hold them.
pub open spec fn call_text(outcome: CallOutcomeModel, panic: Seq<char>) -> Seq<char> {
    match outcome {
        CallOutcomeModel::Text(text) => without_nul(text),
        CallOutcomeModel::Failed(message) => without_nul("ERROR: "@ + message),
        CallOutcomeModel::Panicked => without_nul("ERROR: "@ + panic),
    }
}

/// The text that a call gives back. `panic` says what was being done when it panicked.
pub fn call_result(outcome: &CallOutcome, panic: &str) -> (r: String)
    ensures
        r@ == call_text(outcome.deep_view(), panic@),
{
    match outcome {
        CallOutcome::Text(text) => strip_nul(text.as_str()),
        CallOutcome::Failed(message) => strip_nul(glue("ERROR: ", message.as_str()).as_str()),
        CallOutcome::Panicked => strip_nul(glue("ERROR: ", panic).as_str()),
    }
}

/// The text that a download gives back: nothing where it succeeded. An error that no C string can
/// hold is not told.
pub open spec fn download_text(outcome: CallOutcomeModel) -> Seq<char> {
    let text = match outcome {
        CallOutcomeModel::Text(_) => Seq::empty(),
        CallOutcomeModel::Failed(message) => "ERROR: "@ + message,
        CallOutcomeModel::Panicked => "ERROR: panic while downloading SSH workspace file"@,
    };
    if text.contains('\0') {
        "ERROR: invalid download result"@
    } else {
        text
    }
}

fn has_nul(text: &str) -> (r: bool)
    ensures
        r == text@.contains('\0'),
{
    let v = chars_of(text);
    let mut i: usize = 0;
    while i < v.len()
        invariant
            i <= v@.len(),
            v@ == text@,
            forall|k: int| 0 <= k < i ==> #[trigger] v@[k] != '\0',
        decreases v.len() - i,
    {
        if v[i] == '\0' {
            assert(text@[i as int] == '\0');
            return true;
        }
        i = i + 1;
    }
    false
}

/// The text that a download gives back.
pub fn download_result(outcome: &CallOutcome) -> (r: String)
    ensures
        r@ == download_text(outcome.deep_view()),
{
    let text = match outcome {
        CallOutcome::Text(_) => {
            let empty = String::new();
            assert(empty@ =~= Seq::empty());
            empty
        },
        CallOutcome::Failed(message) => glue("ERROR: ", message.as_str()),
        CallOutcome::Panicked => "ERROR: panic while downloading SSH workspace file".to_string(),
    };
    if has_nul(text.as_str()) {
        "ERROR: invalid download result".to_string()
    } else {
        text
    }
}

// ---------------------------------------------------------------------------------------------
// Remote commands

/// What is known after a report of a remote command.
pub open spec fn captured(
    capture: CommandCaptureModel,
    report: CommandReportModel,
) -> CommandCaptureModel {
    match report {
        CommandReportModel::Output(bytes) => CommandCaptureModel {
            output: capture.output + bytes,
            ..capture
        },
        CommandReportModel::ExitStatus(status) => CommandCaptureModel {
            exit_status: Some(status),
            ..capture
        },
        CommandReportModel::Other => capture,
    }
}

/// The combined output of a remote command and its exit code.
#[derive(Debug)]
pub struct SshOutput {
    pub output: String,
    pub exit_code: u32,
}

impl CommandCapture {
    /// A command that has reported nothing.
    pub fn new() -> (r: Self)
        ensures
            r.deep_view() == (CommandCaptureModel { output: Seq::empty(), exit_status: None }),
    {
        let r = CommandCapture { output: Vec::new(), exit_status: None };
        proof {
            lemma_empty_content(r.output);
        }
        r
    }

    /// Takes the next report of the command.
    pub fn accept(&mut self, report: &CommandReport)
        ensures
            final(self).deep_view() == captured(old(self).deep_view(), report.deep_view()),
    {
        match report {
            CommandReport::Output(bytes) => {
                let ghost before = self.output.deep_view();
                let mut more = bytes.duplicate();
                let ghost added = more.deep_view();
                self.output.append(&mut more);
                assert(self.output.deep_view() =~= before + added);
            },
            CommandReport::ExitStatus(status) => {
                self.exit_status = Some(*status);
            },
            CommandReport::Other => {},
        }
    }

    /// The output of the command as text, and its exit code. A command that reported no exit
    /// status counts as a success.
    pub fn finish(&self) -> (r: SshOutput)
        ensures
            r.output@ == lossy_text(self.output@),
            r.exit_code == match self.exit_status {
                Some(status) => status,
                None => 0u32,
            },
    {
        SshOutput {
            output: decode_lossy(self.output.as_slice()),
            exit_code: match self.exit_status {
                Some(status) => status,
                None => 0,
            },
        }
    }
}

/// The text that `String::from_utf8_lossy` reads from some bytes.
pub uninterp spec fn lossy_text(bytes: Seq<u8>) -> Seq<char>;

/// `String::from_utf8_lossy`, as an owned text. The result is a function of the bytes alone; it is
/// named and not described.
#[verifier::external_body]
pub(crate) fn decode_lossy(bytes: &[u8]) -> (r: String)
    ensures
        r@ == lossy_text(bytes@),
{
    String::from_utf8_lossy(bytes).into_owned()
}

} // verus!
