//! The line-oriented credential messages exchanged with git.
//!
//! A message is a run of `key=value` lines, each ended by a newline. Six keys are known:
//! `protocol`, `host`, `path`, `url`, `username` and `password`.

use crate::error::HelperError;
use crate::text::{
    chars_of, find_char, first_index, lemma_first_index_bounds, lemma_first_index_is, range_is,
    text_of,
};
use vstd::prelude::*;
use vstd::string::StringExecFns;

verus! {

/// A credential request or response.
#[derive(Clone, Debug, PartialEq, Eq)]
pub struct GitCredentialMessage {
    pub protocol: Option<String>,
    pub host: Option<String>,
    pub path: Option<String>,
    pub url: Option<String>,
    pub username: Option<String>,
    pub password: Option<String>,
}

/// What a message holds, as plain text.
pub struct GitCredentialView {
    pub protocol: Option<Seq<char>>,
    pub host: Option<Seq<char>>,
    pub path: Option<Seq<char>>,
    pub url: Option<Seq<char>>,
    pub username: Option<Seq<char>>,
    pub password: Option<Seq<char>>,
}

impl View for GitCredentialMessage {
    type V = GitCredentialView;

    open spec fn view(&self) -> GitCredentialView {
        GitCredentialView {
            protocol: text_of(self.protocol),
            host: text_of(self.host),
            path: text_of(self.path),
            url: text_of(self.url),
            username: text_of(self.username),
            password: text_of(self.password),
        }
    }
}

/// The message without any field.
pub open spec fn empty_message() -> GitCredentialView {
    GitCredentialView {
        protocol: None,
        host: None,
        path: None,
        url: None,
        username: None,
        password: None,
    }
}

/// A value can be written on a line: it holds no newline.
pub open spec fn single_line(value: Option<Seq<char>>) -> bool {
    match value {
        Some(v) => !v.contains('\n'),
        None => true,
    }
}

impl GitCredentialView {
    /// Every field that is present fits on one line.
    pub open spec fn well_formed(self) -> bool {
        &&& single_line(self.protocol)
        &&& single_line(self.host)
        &&& single_line(self.path)
        &&& single_line(self.url)
        &&& single_line(self.username)
        &&& single_line(self.password)
    }

    /// The message with the field named `key` set to `value`; unknown keys change nothing.
    pub open spec fn with_field(self, key: Seq<char>, value: Seq<char>) -> GitCredentialView {
        if key == "protocol"@ {
            GitCredentialView { protocol: Some(value), ..self }
        } else if key == "host"@ {
            GitCredentialView { host: Some(value), ..self }
        } else if key == "path"@ {
            GitCredentialView { path: Some(value), ..self }
        } else if key == "url"@ {
            GitCredentialView { url: Some(value), ..self }
        } else if key == "username"@ {
            GitCredentialView { username: Some(value), ..self }
        } else if key == "password"@ {
            GitCredentialView { password: Some(value), ..self }
        } else {
            self
        }
    }

    /// The message after one more line: an empty line changes nothing, a line without `=` is
    /// refused, and any other line sets the field before its first `=` to what follows it.
    pub open spec fn with_line(self, line: Seq<char>) -> Option<GitCredentialView> {
        if line.len() == 0 {
            Some(self)
        } else {
            let eq = first_index(line, '=');
            if eq == line.len() {
                None
            } else {
                Some(self.with_field(line.take(eq), line.skip(eq + 1)))
            }
        }
    }

    /// The URL that the message is about: its `url` field, or else
    /// `protocol://host/path` with an empty path where none is given.
    pub open spec fn target_url(self) -> Option<Seq<char>> {
        match self.url {
            Some(url) => Some(url),
            None => match (self.protocol, self.host) {
                (Some(protocol), Some(host)) => Some(
                    protocol + "://"@ + host + "/"@ + match self.path {
                        Some(path) => path,
                        None => Seq::<char>::empty(),
                    },
                ),
                _ => None,
            },
        }
    }
}

/// The line that carries one field, or nothing where the field is absent.
pub open spec fn field_line(key: Seq<char>, value: Option<Seq<char>>) -> Seq<char> {
    match value {
        Some(v) => key + seq!['='] + v + seq!['\n'],
        None => Seq::<char>::empty(),
    }
}

/// The text of a message: one line for each field that is present, in a fixed order.
pub open spec fn encoded(message: GitCredentialView) -> Seq<char> {
    field_line("protocol"@, message.protocol) + field_line("host"@, message.host) + field_line(
        "path"@,
        message.path,
    ) + field_line("url"@, message.url) + field_line("username"@, message.username) + field_line(
        "password"@,
        message.password,
    )
}

/// Reads `text` line by line into `message`. The last line needs no newline.
pub open spec fn decoded_from(message: GitCredentialView, text: Seq<char>) -> Option<
    GitCredentialView,
>
    decreases text.len(),
{
    if text.len() == 0 {
        Some(message)
    } else {
        let end = first_index(text, '\n');
        match message.with_line(text.take(end)) {
            None => None,
            Some(next) => if 0 <= end < text.len() {
                decoded_from(next, text.skip(end + 1))
            } else {
                Some(next)
            },
        }
    }
}

/// The message that `text` spells, or `None` where one of its lines is malformed.
pub open spec fn decoded(text: Seq<char>) -> Option<GitCredentialView> {
    decoded_from(empty_message(), text)
}

fn append_field(out: &mut String, key: &str, value: &Option<String>)
    ensures
        final(out)@ == old(out)@ + field_line(key@, text_of(*value)),
{
    match value {
        Some(v) => {
            proof {
                reveal_strlit("=");
                reveal_strlit("\n");
            }
            out.append(key);
            out.append("=");
            out.append(v.as_str());
            out.append("\n");
        },
        None => {},
    }
}

impl GitCredentialMessage {
    /// A message without any field.
    pub fn new() -> (message: GitCredentialMessage)
        ensures
            message@ == empty_message(),
    {
        GitCredentialMessage {
            protocol: None,
            host: None,
            path: None,
            url: None,
            username: None,
            password: None,
        }
    }

    /// Sets the field that `chars[from..to]` names; an unknown name changes nothing.
    fn set_field(&mut self, chars: &Vec<char>, from: usize, to: usize, value: String)
        requires
            from <= to <= chars.len(),
        ensures
            final(self)@ == old(self)@.with_field(chars@.subrange(from as int, to as int), value@),
    {
        if range_is(chars, from, to, "protocol") {
            self.protocol = Some(value);
        } else if range_is(chars, from, to, "host") {
            self.host = Some(value);
        } else if range_is(chars, from, to, "path") {
            self.path = Some(value);
        } else if range_is(chars, from, to, "url") {
            self.url = Some(value);
        } else if range_is(chars, from, to, "username") {
            self.username = Some(value);
        } else if range_is(chars, from, to, "password") {
            self.password = Some(value);
        }
    }

    /// Parses a credential message. Empty lines and unknown keys are passed over, a later line
    /// for a key replaces an earlier one, and a line without `=` fails the whole message.
    pub fn from_str(text: &str) -> (r: Result<GitCredentialMessage, HelperError>)
        ensures
            match decoded(text@) {
                Some(message) => r is Ok && r->Ok_0@ == message,
                None => r == Err::<GitCredentialMessage, HelperError>(
                    HelperError::MalformedRequest,
                ),
            },
    {
        let chars = chars_of(text);
        let mut message = GitCredentialMessage::new();
        let mut start: usize = 0;
        assert(chars@.skip(0) =~= chars@);
        while start < chars.len()
            invariant
                start <= chars.len(),
                chars@ == text@,
                decoded_from(message@, chars@.skip(start as int)) == decoded(text@),
            decreases chars.len() - start,
        {
            let ghost rest = chars@.skip(start as int);
            let end = find_char(&chars, start, chars.len(), '\n');
            proof {
                assert(rest.take(end - start) =~= chars@.subrange(start as int, end as int));
            }
            let ghost line = chars@.subrange(start as int, end as int);
            if end > start {
                let eq = find_char(&chars, start, end, '=');
                if eq == end {
                    return Err(HelperError::MalformedRequest);
                }
                let value = text.substring_char(eq + 1, end).to_owned();
                proof {
                    assert(line.take(eq - start) =~= chars@.subrange(start as int, eq as int));
                    assert(line.skip(eq - start + 1) =~= value@);
                }
                message.set_field(&chars, start, eq, value);
            }
            if end < chars.len() {
                proof {
                    assert(rest.skip(end - start + 1) =~= chars@.skip(end + 1));
                }
                start = end + 1;
            } else {
                start = end;
            }
        }
        Ok(message)
    }

    /// Writes the message as text: one `key=value` line for each field that is present.
    pub fn to_string(&self) -> (text: String)
        ensures
            text@ == encoded(self@),
    {
        let mut out = String::new();
        append_field(&mut out, "protocol", &self.protocol);
        append_field(&mut out, "host", &self.host);
        append_field(&mut out, "path", &self.path);
        append_field(&mut out, "url", &self.url);
        append_field(&mut out, "username", &self.username);
        append_field(&mut out, "password", &self.password);
        out
    }
}

/// What a request asks about: the message read from `text` together with its URL.
pub open spec fn request_of(text: Seq<char>) -> Result<
    (GitCredentialView, Seq<char>),
    HelperError,
> {
    match decoded(text) {
        None => Err(HelperError::MalformedRequest),
        Some(message) => match message.target_url() {
            None => Err(HelperError::IncompleteRequest),
            Some(url) => Ok((message, url)),
        },
    }
}

/// Reads a credential request from the text that git sent and works out the URL it is about.
/// The URL is the `url` field where there is one; otherwise it is put together from protocol,
/// host and path, and protocol and host must both be there.
pub fn read_git_request(input: &str) -> (r: Result<(GitCredentialMessage, String), HelperError>)
    ensures
        match request_of(input@) {
            Ok((message, url)) => r is Ok && r->Ok_0.0@ == message && r->Ok_0.1@ == url,
            Err(e) => r is Err && r->Err_0 == e,
        },
{
    let request = match GitCredentialMessage::from_str(input) {
        Ok(request) => request,
        Err(e) => {
            return Err(e);
        },
    };
    let url = match &request.url {
        Some(url) => url.clone(),
        None => {
            match (&request.protocol, &request.host) {
                (Some(protocol), Some(host)) => {
                    let mut url = protocol.clone();
                    url.append("://");
                    url.append(host.as_str());
                    url.append("/");
                    match &request.path {
                        Some(path) => {
                            url.append(path.as_str());
                        },
                        None => {},
                    }
                    url
                },
                _ => {
                    return Err(HelperError::IncompleteRequest);
                },
            }
        },
    };
    Ok((request, url))
}

/// A key names one of the six fields.
pub open spec fn known_key(key: Seq<char>) -> bool {
    ||| key == "protocol"@
    ||| key == "host"@
    ||| key == "path"@
    ||| key == "url"@
    ||| key == "username"@
    ||| key == "password"@
}

/// `text` is what `encoded` gives for some well-formed message.
pub open spec fn canonical(text: Seq<char>) -> bool {
    exists|message: GitCredentialView| message.well_formed() && #[trigger] encoded(message) == text
}

/// The six keys differ from each other, and none holds `=` or a newline.
proof fn lemma_keys()
    ensures
        "protocol"@ != "host"@,
        "protocol"@ != "path"@,
        "protocol"@ != "url"@,
        "protocol"@ != "username"@,
        "protocol"@ != "password"@,
        "host"@ != "path"@,
        "host"@ != "url"@,
        "host"@ != "username"@,
        "host"@ != "password"@,
        "path"@ != "url"@,
        "path"@ != "username"@,
        "path"@ != "password"@,
        "url"@ != "username"@,
        "url"@ != "password"@,
        "username"@ != "password"@,
        forall|key: Seq<char>| #[trigger]
            known_key(key) ==> !key.contains('=') && !key.contains('\n'),
{
    reveal_strlit("protocol");
    reveal_strlit("host");
    reveal_strlit("path");
    reveal_strlit("url");
    reveal_strlit("username");
    reveal_strlit("password");
    assert("protocol"@.len() == 8 && "host"@.len() == 4 && "path"@.len() == 4);
    assert("url"@.len() == 3 && "username"@.len() == 8 && "password"@.len() == 8);
    assert("protocol"@[1] == 'r');
    assert("password"@[1] == 'a');
    assert("host"@[0] == 'h');
    assert("path"@[0] == 'p');
    assert("username"@[0] == 'u');
    assert("protocol"@[0] == 'p');
    assert("password"@[0] == 'p');
}

/// Reading a complete `key=value` line sets that field and goes on with what follows.
proof fn lemma_line_step(
    message: GitCredentialView,
    key: Seq<char>,
    value: Seq<char>,
    rest: Seq<char>,
)
    requires
        !key.contains('='),
        !key.contains('\n'),
        !value.contains('\n'),
    ensures
        decoded_from(message, key + seq!['='] + value + seq!['\n'] + rest) == decoded_from(
            message.with_field(key, value),
            rest,
        ),
{
    let line = key + seq!['='] + value;
    let text = line + seq!['\n'] + rest;
    lemma_first_index_is(text, '\n', line.len() as int);
    assert(text.take(line.len() as int) =~= line);
    assert(text.skip(line.len() as int + 1) =~= rest);
    lemma_first_index_is(line, '=', key.len() as int);
    assert(line.take(key.len() as int) =~= key);
    assert(line.skip(key.len() as int + 1) =~= value);
}

/// Reading the line of an optional field sets the field where it is present.
proof fn lemma_field_step(
    message: GitCredentialView,
    key: Seq<char>,
    value: Option<Seq<char>>,
    rest: Seq<char>,
)
    requires
        known_key(key),
        single_line(value),
    ensures
        decoded_from(message, field_line(key, value) + rest) == decoded_from(
            match value {
                Some(v) => message.with_field(key, v),
                None => message,
            },
            rest,
        ),
{
    lemma_keys();
    match value {
        Some(v) => {
            lemma_line_step(message, key, v, rest);
        },
        None => {},
    }
}

/// Decoding undoes encoding: a message whose values hold no newline is read back from its
/// text unchanged.
pub proof fn law_decode_encode(message: GitCredentialView)
    requires
        message.well_formed(),
    ensures
        decoded(encoded(message)) == Some(message),
{
    lemma_keys();
    let l1 = field_line("protocol"@, message.protocol);
    let l2 = field_line("host"@, message.host);
    let l3 = field_line("path"@, message.path);
    let l4 = field_line("url"@, message.url);
    let l5 = field_line("username"@, message.username);
    let l6 = field_line("password"@, message.password);
    let none = Seq::<char>::empty();
    let t6 = l6 + none;
    let t5 = l5 + t6;
    let t4 = l4 + t5;
    let t3 = l3 + t4;
    let t2 = l2 + t3;
    let t1 = l1 + t2;
    assert(encoded(message) =~= t1);
    let m0 = empty_message();
    let m1 = GitCredentialView { protocol: message.protocol, ..m0 };
    let m2 = GitCredentialView { host: message.host, ..m1 };
    let m3 = GitCredentialView { path: message.path, ..m2 };
    let m4 = GitCredentialView { url: message.url, ..m3 };
    let m5 = GitCredentialView { username: message.username, ..m4 };
    lemma_field_step(m0, "protocol"@, message.protocol, t2);
    lemma_field_step(m1, "host"@, message.host, t3);
    lemma_field_step(m2, "path"@, message.path, t4);
    lemma_field_step(m3, "url"@, message.url, t5);
    lemma_field_step(m4, "username"@, message.username, t6);
    lemma_field_step(m5, "password"@, message.password, none);
}

/// Encoding undoes decoding on every text that an encoder can have written.
pub proof fn law_encode_decode(text: Seq<char>)
    requires
        canonical(text),
    ensures
        decoded(text) is Some,
        encoded(decoded(text)->Some_0) == text,
{
    let message = choose|message: GitCredentialView|
        message.well_formed() && #[trigger] encoded(message) == text;
    law_decode_encode(message);
}

/// Setting a field to a value without a newline keeps a message well formed.
proof fn lemma_with_line_well_formed(message: GitCredentialView, line: Seq<char>)
    requires
        message.well_formed(),
        !line.contains('\n'),
    ensures
        message.with_line(line) matches Some(next) ==> next.well_formed(),
{
    if line.len() > 0 {
        let eq = first_index(line, '=');
        lemma_first_index_bounds(line, '=');
        if eq < line.len() {
            let value = line.skip(eq + 1);
            assert forall|j: int| 0 <= j < value.len() implies value[j] != '\n' by {
                assert(value[j] == line[j + eq + 1]);
                assert(line.contains(line[j + eq + 1]));
            }
        }
    }
}

/// Whatever the decoder reads into a well-formed message leaves it well formed.
proof fn lemma_decoded_from_well_formed(message: GitCredentialView, text: Seq<char>)
    requires
        message.well_formed(),
    ensures
        decoded_from(message, text) matches Some(read) ==> read.well_formed(),
    decreases text.len(),
{
    if text.len() > 0 {
        let end = first_index(text, '\n');
        lemma_first_index_bounds(text, '\n');
        let line = text.take(end);
        lemma_with_line_well_formed(message, line);
        match message.with_line(line) {
            None => {},
            Some(next) => {
                if end < text.len() {
                    lemma_decoded_from_well_formed(next, text.skip(end + 1));
                }
            },
        }
    }
}

/// Every message that the decoder returns is well formed.
pub proof fn law_decoded_well_formed(text: Seq<char>)
    ensures
        decoded(text) matches Some(message) ==> message.well_formed(),
{
    lemma_decoded_from_well_formed(empty_message(), text);
}

/// The texts that survive decoding and encoding unchanged are exactly the canonical ones.
pub proof fn law_round_trip_exact(text: Seq<char>)
    ensures
        (decoded(text) matches Some(message) && encoded(message) == text) <==> canonical(text),
{
    if canonical(text) {
        law_encode_decode(text);
    }
    if decoded(text) matches Some(message) && encoded(message) == text {
        law_decoded_well_formed(text);
    }
}

} // verus!
