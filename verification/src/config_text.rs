//! Settings as they are given in text, and the configuration text of a provider.
use vstd::prelude::*;
use vstd::string::*;

use crate::lists::outcome;
use crate::model::Modeled;
use crate::text::{
    chars_of, debug_text, glue, glue3, lower_ascii, lower_text, quoted, same_text, trim_text,
    trimmed,
};

verus! {

/// The protocol that a provider speaks.
#[derive(Clone, Copy, Debug, PartialEq, Eq, Structural)]
pub enum WireApi {
    Responses,
    ChatCompletions,
}

impl DeepView for WireApi {
    type V = WireApi;

    open spec fn deep_view(&self) -> WireApi {
        *self
    }
}

impl Modeled for WireApi {
    fn duplicate(&self) -> (r: Self) {
        *self
    }

    fn same(&self, other: &Self) -> (r: bool) {
        *self == *other
    }
}

/// How commands on a server are kept alive.
#[derive(Clone, Copy, Debug, PartialEq, Eq, Structural)]
pub enum SshTmuxMode {
    Required,
    Preferred,
    Disabled,
}

impl DeepView for SshTmuxMode {
    type V = SshTmuxMode;

    open spec fn deep_view(&self) -> SshTmuxMode {
        *self
    }
}

impl Modeled for SshTmuxMode {
    fn duplicate(&self) -> (r: Self) {
        *self
    }

    fn same(&self, other: &Self) -> (r: bool) {
        *self == *other
    }
}

/// How a client proves who it is to an SSH server.
#[derive(Debug, PartialEq, Eq)]
pub enum SshAuthentication {
    Password(String),
    PrivateKeyPath(String),
}

/// The mathematical content of a [`SshAuthentication`].
pub enum SshAuthenticationModel {
    Password(Seq<char>),
    PrivateKeyPath(Seq<char>),
}

impl DeepView for SshAuthentication {
    type V = SshAuthenticationModel;

    open spec fn deep_view(&self) -> SshAuthenticationModel {
        match self {
            SshAuthentication::Password(x) => SshAuthenticationModel::Password(x.deep_view()),
            SshAuthentication::PrivateKeyPath(x) => SshAuthenticationModel::PrivateKeyPath(
                x.deep_view(),
            ),
        }
    }
}

impl Modeled for SshAuthentication {
    fn duplicate(&self) -> (r: Self) {
        match self {
            SshAuthentication::Password(x) => SshAuthentication::Password(x.duplicate()),
            SshAuthentication::PrivateKeyPath(x) => SshAuthentication::PrivateKeyPath(
                x.duplicate(),
            ),
        }
    }

    fn same(&self, other: &Self) -> (r: bool) {
        match (self, other) {
            (SshAuthentication::Password(x), SshAuthentication::Password(x_other)) => x.same(
                x_other,
            ),
            (SshAuthentication::PrivateKeyPath(x), SshAuthentication::PrivateKeyPath(x_other)) => {
                x.same(x_other)
            },
            _ => false,
        }
    }
}

impl Clone for SshAuthentication {
    fn clone(&self) -> (r: Self)
        ensures
            r.deep_view() == self.deep_view(),
    {
        self.duplicate()
    }
}

/// What a client was given to prove who it is: a password, or the contents of a private key.
#[derive(Debug, PartialEq, Eq)]
pub enum SshCredential {
    Password(String),
    PrivateKey(String),
}

/// The mathematical content of a [`SshCredential`].
pub enum SshCredentialModel {
    Password(Seq<char>),
    PrivateKey(Seq<char>),
}

impl DeepView for SshCredential {
    type V = SshCredentialModel;

    open spec fn deep_view(&self) -> SshCredentialModel {
        match self {
            SshCredential::Password(x) => SshCredentialModel::Password(x.deep_view()),
            SshCredential::PrivateKey(x) => SshCredentialModel::PrivateKey(x.deep_view()),
        }
    }
}

impl Modeled for SshCredential {
    fn duplicate(&self) -> (r: Self) {
        match self {
            SshCredential::Password(x) => SshCredential::Password(x.duplicate()),
            SshCredential::PrivateKey(x) => SshCredential::PrivateKey(x.duplicate()),
        }
    }

    fn same(&self, other: &Self) -> (r: bool) {
        match (self, other) {
            (SshCredential::Password(x), SshCredential::Password(x_other)) => x.same(x_other),
            (SshCredential::PrivateKey(x), SshCredential::PrivateKey(x_other)) => x.same(x_other),
            _ => false,
        }
    }
}

impl Clone for SshCredential {
    fn clone(&self) -> (r: Self)
        ensures
            r.deep_view() == self.deep_view(),
    {
        self.duplicate()
    }
}

/// How much the model is asked to reason, by name.
#[derive(Debug, PartialEq, Eq)]
pub struct ReasoningEffort {
    pub name: String,
}

/// The mathematical content of a [`ReasoningEffort`].
pub struct ReasoningEffortModel {
    pub name: Seq<char>,
}

impl DeepView for ReasoningEffort {
    type V = ReasoningEffortModel;

    open spec fn deep_view(&self) -> ReasoningEffortModel {
        ReasoningEffortModel {
            name: self.name.deep_view(),
        }
    }
}

impl Modeled for ReasoningEffort {
    fn duplicate(&self) -> (r: Self) {
        ReasoningEffort {
            name: self.name.duplicate(),
        }
    }

    fn same(&self, other: &Self) -> (r: bool) {
        self.name.same(&other.name)
    }
}

impl Clone for ReasoningEffort {
    fn clone(&self) -> (r: Self)
        ensures
            r.deep_view() == self.deep_view(),
    {
        self.duplicate()
    }
}


// ---------------------------------------------------------------------------------------------
// TOML

/// The digit of a number below sixteen, in upper case.
pub open spec fn upper_hex(d: nat) -> char {
    if d < 10 {
        crate::text::digit_char(d)
    } else if d == 10 {
        'A'
    } else if d == 11 {
        'B'
    } else if d == 12 {
        'C'
    } else if d == 13 {
        'D'
    } else if d == 14 {
        'E'
    } else {
        'F'
    }
}

/// Whether a character is a control character of Unicode.
pub open spec fn is_control(c: char) -> bool {
    c as u32 <= 0x1f || 0x7f <= c as u32 <= 0x9f
}

/// How a character is written inside a TOML basic string.
pub open spec fn toml_char(c: char) -> Seq<char> {
    if c == '\\' {
        seq!['\\', '\\']
    } else if c == '"' {
        seq!['\\', '"']
    } else if c == '\n' {
        seq!['\\', 'n']
    } else if c == '\r' {
        seq!['\\', 'r']
    } else if c == '\t' {
        seq!['\\', 't']
    } else if is_control(c) {
        seq![
            '\\',
            'u',
            '0',
            '0',
            upper_hex((c as u32 / 16) as nat),
            upper_hex((c as u32 % 16) as nat),
        ]
    } else {
        seq![c]
    }
}

/// How a text is written inside a TOML basic string.
pub open spec fn toml_body(text: Seq<char>) -> Seq<char>
    decreases text.len(),
{
    if text.len() == 0 {
        Seq::empty()
    } else {
        toml_body(text.drop_last()) + toml_char(text.last())
    }
}

/// A text as a TOML basic string.
pub open spec fn toml_string(text: Seq<char>) -> Seq<char> {
    seq!['"'] + toml_body(text) + seq!['"']
}

fn hex_digit(d: u32) -> (r: char)
    requires
        d < 16,
    ensures
        r == upper_hex(d as nat),
{
    if d == 0 {
        '0'
    } else if d == 1 {
        '1'
    } else if d == 2 {
        '2'
    } else if d == 3 {
        '3'
    } else if d == 4 {
        '4'
    } else if d == 5 {
        '5'
    } else if d == 6 {
        '6'
    } else if d == 7 {
        '7'
    } else if d == 8 {
        '8'
    } else if d == 9 {
        '9'
    } else if d == 10 {
        'A'
    } else if d == 11 {
        'B'
    } else if d == 12 {
        'C'
    } else if d == 13 {
        'D'
    } else if d == 14 {
        'E'
    } else {
        'F'
    }
}

fn push_toml_char(out: &mut String, c: char)
    ensures
        final(out)@ == old(out)@ + toml_char(c),
{
    let n: u32 = c as u32;
    if c == '\\' {
        out.push('\\');
        out.push('\\');
    } else if c == '"' {
        out.push('\\');
        out.push('"');
    } else if c == '\n' {
        out.push('\\');
        out.push('n');
    } else if c == '\r' {
        out.push('\\');
        out.push('r');
    } else if c == '\t' {
        out.push('\\');
        out.push('t');
    } else if n <= 0x1f || (0x7f <= n && n <= 0x9f) {
        out.push('\\');
        out.push('u');
        out.push('0');
        out.push('0');
        out.push(hex_digit(n / 16));
        out.push(hex_digit(n % 16));
    } else {
        out.push(c);
    }
    assert(out@ =~= old(out)@ + toml_char(c));
}

/// A text as a TOML basic string.
pub fn toml_basic_string(value: &str) -> (r: String)
    ensures
        r@ == toml_string(value@),
{
    let v = chars_of(value);
    let mut out = String::new();
    out.push('"');
    let mut i: usize = 0;
    assert(out@ =~= seq!['"'] + toml_body(v@.take(0)));
    while i < v.len()
        invariant
            i <= v@.len(),
            v@ == value@,
            out@ == seq!['"'] + toml_body(v@.take(i as int)),
        decreases v.len() - i,
    {
        let ghost before = out@;
        push_toml_char(&mut out, v[i]);
        proof {
            assert(v@.take(i + 1).drop_last() =~= v@.take(i as int));
            assert(v@.take(i + 1).last() == v@[i as int]);
            assert(out@ =~= seq!['"'] + toml_body(v@.take(i + 1)));
        }
        i = i + 1;
    }
    assert(v@.take(v@.len() as int) =~= v@);
    out.push('"');
    assert(out@ =~= toml_string(value@));
    out
}

/// The number that an upper-case hexadecimal digit stands for.
pub open spec fn hex_value(c: char) -> Option<nat> {
    if '0' <= c && c <= '9' {
        Some((c as u32 - '0' as u32) as nat)
    } else if 'A' <= c && c <= 'F' {
        Some((c as u32 - 'A' as u32 + 10) as nat)
    } else {
        None
    }
}

/// The character that an escape stands for, where it is one that is written here.
pub open spec fn escaped_char(c: char) -> Option<char> {
    if c == '\\' || c == '"' {
        Some(c)
    } else if c == 'n' {
        Some('\n')
    } else if c == 'r' {
        Some('\r')
    } else if c == 't' {
        Some('\t')
    } else {
        None
    }
}

/// A text with one more character before it, where there is one.
pub open spec fn behind_char(c: char, rest: Option<Seq<char>>) -> Option<Seq<char>> {
    match rest {
        Some(text) => Some(seq![c] + text),
        None => None,
    }
}

/// The text that a TOML reader finds inside a basic string: escapes stand for their character, and
/// everything else but a quote for itself.
pub open spec fn toml_reading(body: Seq<char>) -> Option<Seq<char>>
    decreases body.len(),
{
    if body.len() == 0 {
        Some(Seq::empty())
    } else if body[0] == '"' {
        None
    } else if body[0] != '\\' {
        behind_char(body[0], toml_reading(body.skip(1)))
    } else if body.len() >= 6 && body[1] == 'u' && body[2] == '0' && body[3] == '0' {
        match (hex_value(body[4]), hex_value(body[5])) {
            (Some(high), Some(low)) => behind_char(
                ((16 * high + low) as u8) as char,
                toml_reading(body.skip(6)),
            ),
            _ => None,
        }
    } else if body.len() >= 2 && escaped_char(body[1]) is Some {
        behind_char(escaped_char(body[1])->0, toml_reading(body.skip(2)))
    } else {
        None
    }
}

proof fn lemma_hex_reads_back(d: nat)
    requires
        d < 16,
    ensures
        hex_value(upper_hex(d)) == Some(d),
{
}

proof fn lemma_char_reads_back(c: char, rest: Seq<char>)
    ensures
        toml_reading(toml_char(c) + rest) == behind_char(c, toml_reading(rest)),
{
    let body = toml_char(c) + rest;
    let n = toml_char(c).len() as int;
    assert(body.skip(n) =~= rest);
    assert(body[0] == toml_char(c)[0]);
    if n == 2 {
        assert(body[1] == toml_char(c)[1]);
        assert(escaped_char(body[1]) == Some(c));
        assert(body[1] != 'u');
    } else if n == 6 {
        let code = c as u32;
        assert(body[1] == 'u' && body[2] == '0' && body[3] == '0');
        assert(body[4] == toml_char(c)[4] && body[5] == toml_char(c)[5]);
        lemma_hex_reads_back((code / 16) as nat);
        lemma_hex_reads_back((code % 16) as nat);
        assert(16 * (code / 16) + code % 16 == code);
        assert((code as u8) as char == c);
    }
}

proof fn lemma_body_from_the_front(c: char, text: Seq<char>)
    ensures
        toml_body(seq![c] + text) == toml_char(c) + toml_body(text),
    decreases text.len(),
{
    let whole = seq![c] + text;
    if text.len() == 0 {
        assert(whole.drop_last() =~= text);
        assert(whole.last() == c);
        assert(toml_body(text) =~= Seq::empty());
        assert(toml_body(whole) =~= toml_char(c) + toml_body(text));
    } else {
        lemma_body_from_the_front(c, text.drop_last());
        assert(whole.drop_last() =~= seq![c] + text.drop_last());
        assert(toml_body(whole) =~= toml_char(c) + toml_body(text));
    }
}

/// A TOML reader finds in a written string exactly the text that was written.
pub proof fn law_toml_strings_read_back(text: Seq<char>)
    ensures
        toml_reading(toml_body(text)) == Some(text),
    decreases text.len(),
{
    if text.len() == 0 {
        assert(text =~= Seq::empty());
    } else {
        let rest = text.skip(1);
        assert(text =~= seq![text[0]] + rest);
        law_toml_strings_read_back(rest);
        lemma_body_from_the_front(text[0], rest);
        lemma_char_reads_back(text[0], toml_body(rest));
    }
}

/// Nothing inside a TOML basic string ends it or its line: the text is written without bare
/// quotes and without control characters.
pub proof fn law_toml_body_is_quotable(text: Seq<char>)
    ensures
        forall|i: int|
            0 <= i < toml_body(text).len() ==> {
                &&& !is_control(#[trigger] toml_body(text)[i])
                &&& toml_body(text)[i] == '"' ==> i > 0 && toml_body(text)[i - 1] == '\\'
            },
    decreases text.len(),
{
    if text.len() > 0 {
        law_toml_body_is_quotable(text.drop_last());
        let front = toml_body(text.drop_last());
        let tail = toml_char(text.last());
        let whole = toml_body(text);
        assert forall|i: int| 0 <= i < whole.len() implies {
            &&& !is_control(#[trigger] whole[i])
            &&& whole[i] == '"' ==> i > 0 && whole[i - 1] == '\\'
        } by {
            if i < front.len() {
                assert(whole[i] == front[i]);
                if i > 0 {
                    assert(whole[i - 1] == front[i - 1]);
                }
            } else {
                let k = i - front.len();
                assert(whole[i] == tail[k]);
                if k > 0 {
                    assert(whole[i - 1] == tail[k - 1]);
                }
            }
        }
    }
}

/// The name of a wire protocol in a configuration.
pub open spec fn wire_api_name(wire_api: WireApi) -> Seq<char> {
    match wire_api {
        WireApi::Responses => "responses"@,
        WireApi::ChatCompletions => "chat_completions"@,
    }
}

/// The name of a wire protocol in a configuration.
pub fn wire_api_text(wire_api: WireApi) -> (r: &'static str)
    ensures
        r@ == wire_api_name(wire_api),
{
    match wire_api {
        WireApi::Responses => "responses",
        WireApi::ChatCompletions => "chat_completions",
    }
}

/// The configuration of a provider that is reached with an API key.
pub open spec fn provider_config(base_url: Seq<char>, wire_api: WireApi) -> Seq<char> {
    "model_provider = \"ios-apikey\"\n\n[model_providers.ios-apikey]\n\
    name = \"iOS API key\"\nbase_url = "@
        + toml_string(base_url) + ("\nwire_api = \""@ + wire_api_name(wire_api)
        + "\"\nrequires_openai_auth = false\nsupports_websockets = false\n"@)
}

/// The configuration of a provider that is reached with an API key.
pub fn api_key_provider_config(base_url: &str, wire_api: WireApi) -> (r: String)
    ensures
        r@ == provider_config(base_url@, wire_api),
{
    glue3(
        "model_provider = \"ios-apikey\"\n\n[model_providers.ios-apikey]\n\
        name = \"iOS API key\"\nbase_url = ",
        toml_basic_string(base_url).as_str(),
        glue3(
            "\nwire_api = \"",
            wire_api_text(wire_api),
            "\"\nrequires_openai_auth = false\nsupports_websockets = false\n",
        ).as_str(),
    )
}

// ---------------------------------------------------------------------------------------------
// Settings

/// The wire protocol that a setting names. No setting means the responses protocol.
pub open spec fn wire_api_setting(value: Seq<char>) -> Result<WireApi, Seq<char>> {
    let value = trim_text(value);
    if value.len() == 0 || value == "responses"@ {
        Ok(WireApi::Responses)
    } else if value == "chat_completions"@ {
        Ok(WireApi::ChatCompletions)
    } else {
        Err(
            "unsupported wire_api "@ + debug_text(value)
                + "; expected \"responses\" or \"chat_completions\""@,
        )
    }
}

/// The wire protocol that a setting names.
pub fn parse_wire_api(value: &str) -> (r: Result<WireApi, String>)
    ensures
        outcome(r) == wire_api_setting(value@),
{
    let value = trimmed(value);
    let value = value.as_str();
    if value.is_empty() || same_text(value, "responses") {
        Ok(WireApi::Responses)
    } else if same_text(value, "chat_completions") {
        Ok(WireApi::ChatCompletions)
    } else {
        Err(
            glue3(
                "unsupported wire_api ",
                quoted(value).as_str(),
                "; expected \"responses\" or \"chat_completions\"",
            ),
        )
    }
}

/// The name of a wire protocol is read back as that protocol.
pub proof fn law_wire_api_names_read_back(wire_api: WireApi)
    ensures
        wire_api_setting(wire_api_name(wire_api)) == Ok::<WireApi, Seq<char>>(wire_api),
{
    reveal_strlit("responses");
    reveal_strlit("chat_completions");
    reveal_with_fuel(crate::text::trim_left, 2);
    reveal_with_fuel(crate::text::trim_right, 2);
    assert("responses"@.len() == 9);
    assert("chat_completions"@.len() == 16);
    assert("responses"@[0] == 'r' && "responses"@[8] == 's');
    assert("chat_completions"@[0] == 'c' && "chat_completions"@[15] == 's');
}

/// The tmux mode that a setting names. No setting means that it is required.
pub open spec fn tmux_setting(value: Seq<char>) -> Result<SshTmuxMode, Seq<char>> {
    let value = lower_text(trim_text(value));
    if value == "required"@ || value.len() == 0 {
        Ok(SshTmuxMode::Required)
    } else if value == "preferred"@ {
        Ok(SshTmuxMode::Preferred)
    } else if value == "disabled"@ || value == "off"@ {
        Ok(SshTmuxMode::Disabled)
    } else {
        Err(
            "unsupported ssh tmux mode `"@ + value
                + "`; expected required, preferred, or disabled"@,
        )
    }
}

/// The tmux mode that a setting names.
pub fn parse_tmux_mode(value: &str) -> (r: Result<SshTmuxMode, String>)
    ensures
        outcome(r) == tmux_setting(value@),
{
    let value = lower_ascii(trimmed(value).as_str());
    let value = value.as_str();
    if same_text(value, "required") || value.is_empty() {
        Ok(SshTmuxMode::Required)
    } else if same_text(value, "preferred") {
        Ok(SshTmuxMode::Preferred)
    } else if same_text(value, "disabled") || same_text(value, "off") {
        Ok(SshTmuxMode::Disabled)
    } else {
        Err(
            glue3(
                "unsupported ssh tmux mode `",
                value,
                "`; expected required, preferred, or disabled",
            ),
        )
    }
}

/// What a secret is, by the name of the method. The secret itself is kept as it is.
pub open spec fn credential_setting(method: Seq<char>, secret: Seq<char>) -> Result<
    SshCredentialModel,
    Seq<char>,
> {
    let method = lower_text(trim_text(method));
    if method == "password"@ {
        Ok(SshCredentialModel::Password(secret))
    } else if method == "private_key"@ || method == "privatekey"@ || method == "key"@ {
        Ok(SshCredentialModel::PrivateKey(secret))
    } else {
        Err(
            "unsupported ssh authentication method `"@ + method
                + "`; expected private_key or password"@,
        )
    }
}

/// What a secret is, by the name of the method.
pub fn parse_ssh_authentication(method: &str, secret: String) -> (r: Result<SshCredential, String>)
    ensures
        outcome(r) == credential_setting(method@, secret@),
{
    let method = lower_ascii(trimmed(method).as_str());
    let method = method.as_str();
    if same_text(method, "password") {
        Ok(SshCredential::Password(secret))
    } else if same_text(method, "private_key") || same_text(method, "privatekey") || same_text(
        method,
        "key",
    ) {
        Ok(SshCredential::PrivateKey(secret))
    } else {
        Err(
            glue3(
                "unsupported ssh authentication method `",
                method,
                "`; expected private_key or password",
            ),
        )
    }
}

/// The reasoning effort that a setting names. No setting leaves it to the model. `rejected` is
/// what the provider's catalog says against the name, if anything.
pub open spec fn effort_setting(value: Seq<char>, rejected: Option<Seq<char>>) -> Result<
    Option<ReasoningEffortModel>,
    Seq<char>,
> {
    let value = trim_text(value);
    if value.len() == 0 {
        Ok(None)
    } else {
        match rejected {
            None => Ok(Some(ReasoningEffortModel { name: value })),
            Some(error) => Err("invalid reasoning effort `"@ + value + ("`: "@ + error)),
        }
    }
}

/// The reasoning effort that a setting names.
pub fn parse_reasoning_effort(value: &str, rejected: &Option<String>) -> (r: Result<
    Option<ReasoningEffort>,
    String,
>)
    ensures
        outcome(r) == effort_setting(value@, rejected.deep_view()),
{
    let value = trimmed(value);
    if value.as_str().is_empty() {
        return Ok(None);
    }
    match rejected {
        None => Ok(Some(ReasoningEffort { name: value })),
        Some(error) => Err(
            glue3(
                "invalid reasoning effort `",
                value.as_str(),
                glue("`: ", error.as_str()).as_str(),
            ),
        ),
    }
}

/// The service tier that is asked for. `fast` is the provider's priority tier.
pub open spec fn tier_setting(value: Seq<char>) -> Option<Seq<char>> {
    let value = trim_text(value);
    if value.len() == 0 {
        None
    } else if value == "fast"@ {
        Some("priority"@)
    } else {
        Some(value)
    }
}

/// The service tier that is asked for.
pub fn parse_service_tier(value: &str) -> (r: Option<String>)
    ensures
        r.deep_view() == tier_setting(value@),
{
    let value = trimmed(value);
    if value.as_str().is_empty() {
        None
    } else if same_text(value.as_str(), "fast") {
        Some("priority".to_string())
    } else {
        Some(value)
    }
}

} // verus!
