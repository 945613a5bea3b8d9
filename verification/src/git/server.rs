//! The decisions of the Git-over-SSH server: what it makes of the requests
//! of a connection and what it writes back. The SSH transport runs around
//! it, hands each request in and sends what is left in the output buffer.
use vstd::prelude::*;

use super::codec::{DecodeError, GitCodec, GitCommand};
use super::{pkt_line_bytes, PktLine};
use crate::db::users::User;
use crate::text::{ascii_bytes, ascii_literal, bytes_eq, str_eq, str_from_utf8};
use vstd::string::StringSliceAdditionalSpecFns;
use vstd::utf8::valid_utf8;

verus! {

/// The capability advertised as the server's agent.
pub const AGENT: &'static str = "agent=chartered-git/0.1.0\n";

/// Why a request on a connection was refused.
#[derive(Clone, Copy, PartialEq, Eq, Structural, Debug)]
pub enum HandlerError {
    /// The exec request is not UTF-8.
    InvalidUtf8,
    /// The client did not ask for protocol version 2.
    NotProtocolV2,
    /// The client asked to run something other than `git-upload-pack`.
    NotUploadPack,
    /// A command came before the client was authenticated.
    NotAuthenticated,
    /// A command came before an organisation was chosen.
    NoOrganisation,
    /// The client sent malformed packets.
    Decode(DecodeError),
}

/// The user a connection authenticated as, and the API key made for it.
pub struct Authed {
    pub user: User,
    pub auth_key: String,
}

/// The state of one connection.
pub struct Handler {
    pub codec: GitCodec,
    /// Bytes received and not yet read into commands.
    pub input_bytes: Vec<u8>,
    /// Bytes written and not yet sent.
    pub output_bytes: Vec<u8>,
    pub organisation: Option<String>,
    pub authed: Option<Authed>,
    pub is_git_protocol_v2: bool,
}

/// A command the server answers.
pub enum CommandKind {
    LsRefs,
    Fetch,
    /// A command the server ignores, with its bytes.
    Unknown(Vec<u8>),
}

/// What the transport does next with the bytes received so far.
pub enum FrameAction {
    /// No whole command has arrived yet.
    NeedMore,
    /// The client flushed without a command: send exit status 0, end of file,
    /// and close the channel.
    Close,
    /// A command to answer, with the lines that followed it. The repository
    /// is built before it is answered.
    Command(CommandKind, Vec<Vec<u8>>),
}

/// The bytes of a data packet holding `data`.
pub open spec fn data_line(data: Seq<u8>) -> Seq<u8> {
    super::length_field(data.len()) + data
}

/// The capabilities the server announces when a client starts
/// `git-upload-pack`.
pub open spec fn preamble() -> Seq<u8> {
    data_line(ascii_bytes("version 2\n"@)) + data_line(ascii_bytes(AGENT@)) + data_line(
        ascii_bytes("ls-refs=unborn\n"@),
    ) + data_line(ascii_bytes("fetch=shallow wait-for-done\n"@)) + data_line(
        ascii_bytes("server-option\n"@),
    ) + data_line(ascii_bytes("object-info\n"@)) + super::marker(0)
}

/// `s` without the `c`s at its front.
pub open spec fn drop_leading(s: Seq<char>, c: char) -> Seq<char>
    decreases s.len(),
{
    if s.len() > 0 && s[0] == c {
        drop_leading(s.drop_first(), c)
    } else {
        s
    }
}

/// `s` without the `c`s at its end.
pub open spec fn drop_trailing(s: Seq<char>, c: char) -> Seq<char>
    decreases s.len(),
{
    if s.len() > 0 && s.last() == c {
        drop_trailing(s.drop_last(), c)
    } else {
        s
    }
}

/// The words a POSIX shell would split `s` into, or `None` where its quoting
/// is unbalanced, as shlex's `split` computes them.
pub uninterp spec fn shell_words(s: Seq<char>) -> Option<Seq<Seq<char>>>;

/// The arguments of an exec request split into `words`: none where its
/// text could not be split.
pub open spec fn exec_args(words: Option<Seq<Seq<char>>>) -> Seq<Seq<char>> {
    match words {
        Some(words) => words,
        None => seq![],
    }
}

/// Split words as character sequences.
pub open spec fn words_view(words: Option<Vec<String>>) -> Option<Seq<Seq<char>>> {
    match words {
        Some(w) => Some(w@.map_values(|x: String| x@)),
        None => None,
    }
}

/// What an exec request split into `words` leads to: an error, or the
/// organisation the path names (`None` where it names none).
pub open spec fn exec_words_outcome(is_v2: bool, words: Option<Seq<Seq<char>>>) -> Result<
    Option<Seq<char>>,
    HandlerError,
> {
    let args = exec_args(words);
    if !is_v2 {
        Err(HandlerError::NotProtocolV2)
    } else if args.len() == 0 || args[0] != "git-upload-pack"@ {
        Err(HandlerError::NotUploadPack)
    } else if args.len() < 2 || args[1] == "/"@ {
        Ok(None)
    } else {
        Ok(Some(drop_trailing(drop_leading(args[1], '/'), '/')))
    }
}

/// What an exec request of `data` leads to: an error, or the organisation
/// the path names (`None` where it names none).
pub open spec fn exec_outcome(is_v2: bool, data: Seq<u8>) -> Result<Option<Seq<char>>, HandlerError> {
    if !valid_utf8(data) {
        Err(HandlerError::InvalidUtf8)
    } else {
        exec_words_outcome(is_v2, shell_words(vstd::utf8::decode_utf8(data)))
    }
}

/// How an exec request with `outcome` changes the handler from `before` to
/// `after` and what it returns: nothing changes on an error; otherwise the
/// capabilities are written, the organisation is recorded where one is
/// named, and the result says whether one was.
pub open spec fn exec_effect(
    before: Handler,
    after: Handler,
    r: Result<bool, HandlerError>,
    outcome: Result<Option<Seq<char>>, HandlerError>,
) -> bool {
    match outcome {
        Err(e) => r == Err::<bool, HandlerError>(e) && after == before,
        Ok(org) => {
            &&& r == Ok::<bool, HandlerError>(org is Some)
            &&& after.output_bytes@ == before.output_bytes@ + preamble()
            &&& match org {
                Some(o) => after.organisation matches Some(n) && n@ == o,
                None => after.organisation == before.organisation,
            }
            &&& after.input_bytes == before.input_bytes
            &&& after.codec == before.codec
            &&& after.authed == before.authed
            &&& after.is_git_protocol_v2 == before.is_git_protocol_v2
        },
    }
}

/// The message for a client that named no organisation.
pub const MISSING_ORGANISATION_MESSAGE: &'static str = "\r\nNo organisation was given in the path part of the SSH URI. A chartered registry should be defined in your .cargo/config.toml as follows:\n    [registries]\n    chartered = {{ index = \"ssh://domain.to.registry.com/my-organisation\" }}\r\n\n";

/// Splits text into words as a POSIX shell would, with shlex's `split`.
#[verifier::external_body]
fn split_shell_words(s: &str) -> (r: Option<Vec<String>>)
    ensures
        match r {
            Some(words) => shell_words(s@) == Some(words@.map_values(|w: String| w@)),
            None => shell_words(s@) is None,
        },
{
    shlex::split(s)
}

/// Removes every `c` from the front of `s`.
fn trim_leading(s: &Vec<char>, c: char) -> (r: usize)
    ensures
        r <= s@.len(),
        drop_leading(s@, c) == s@.skip(r as int),
{
    let mut i: usize = 0;
    assert(s@.skip(0) =~= s@);
    while i < s.len() && s[i] == c
        invariant
            i <= s@.len(),
            drop_leading(s@, c) == drop_leading(s@.skip(i as int), c),
        decreases s@.len() - i,
    {
        assert(s@.skip(i as int).drop_first() =~= s@.skip(i + 1));
        i = i + 1;
    }
    i
}

/// Removes every `c` from the end of `s[from..]`.
fn trim_trailing(s: &Vec<char>, from: usize, c: char) -> (r: usize)
    requires
        from <= s@.len(),
    ensures
        from <= r <= s@.len(),
        drop_trailing(s@.skip(from as int), c) == s@.subrange(from as int, r as int),
{
    let mut j: usize = s.len();
    assert(s@.skip(from as int) =~= s@.subrange(from as int, j as int));
    while j > from && s[j - 1] == c
        invariant
            from <= j <= s@.len(),
            drop_trailing(s@.skip(from as int), c) == drop_trailing(
                s@.subrange(from as int, j as int),
                c,
            ),
        decreases j,
    {
        assert(s@.subrange(from as int, j as int).drop_last() =~= s@.subrange(
            from as int,
            j - 1,
        ));
        j = j - 1;
    }
    j
}

/// `s` without the slashes at its front and its end.
pub fn trim_slashes(s: &str) -> (r: String)
    ensures
        r@ == drop_trailing(drop_leading(s@, '/'), '/'),
{
    let chars = crate::text::chars_of(s);
    let start = trim_leading(&chars, '/');
    let end = trim_trailing(&chars, start, '/');
    crate::text::string_of(&chars, start, end)
}

impl Handler {
    /// A new connection: nothing received, nothing to send, nobody
    /// authenticated.
    pub fn new() -> (r: Handler)
        ensures
            r.codec.pending() == (Seq::<u8>::empty(), Seq::<Seq<u8>>::empty()),
            r.input_bytes@ == Seq::<u8>::empty(),
            r.output_bytes@ == Seq::<u8>::empty(),
            r.organisation is None,
            r.authed is None,
            !r.is_git_protocol_v2,
    {
        Handler {
            codec: GitCodec::new(),
            input_bytes: Vec::new(),
            output_bytes: Vec::new(),
            organisation: None,
            authed: None,
            is_git_protocol_v2: false,
        }
    }

    /// Writes a packet to the output.
    pub fn write(&mut self, packet: PktLine)
        requires
            super::pkt_line_fits(packet),
        ensures
            final(self).output_bytes@ == old(self).output_bytes@ + pkt_line_bytes(packet),
            final(self).input_bytes == old(self).input_bytes,
            final(self).codec == old(self).codec,
            final(self).organisation == old(self).organisation,
            final(self).authed == old(self).authed,
            final(self).is_git_protocol_v2 == old(self).is_git_protocol_v2,
    {
        packet.encode_to(&mut self.output_bytes);
    }

    /// Takes everything written so far, for the transport to send.
    pub fn take_output(&mut self) -> (r: Vec<u8>)
        ensures
            r@ == old(self).output_bytes@,
            final(self).output_bytes@ == Seq::<u8>::empty(),
            final(self).input_bytes == old(self).input_bytes,
            final(self).codec == old(self).codec,
            final(self).organisation == old(self).organisation,
            final(self).authed == old(self).authed,
            final(self).is_git_protocol_v2 == old(self).is_git_protocol_v2,
    {
        let mut r = Vec::new();
        std::mem::swap(&mut r, &mut self.output_bytes);
        r
    }

    /// The authenticated user, or `NotAuthenticated`.
    pub fn authed(&self) -> (r: Result<&Authed, HandlerError>)
        ensures
            match self.authed {
                Some(a) => r == Ok::<&Authed, HandlerError>(&a),
                None => r == Err::<&Authed, HandlerError>(HandlerError::NotAuthenticated),
            },
    {
        match &self.authed {
            Some(a) => Ok(a),
            None => Err(HandlerError::NotAuthenticated),
        }
    }

    /// The chosen organisation, or `NoOrganisation`.
    pub fn org_name(&self) -> (r: Result<&str, HandlerError>)
        ensures
            match self.organisation {
                Some(o) => r matches Ok(n) && n@ == o@,
                None => r == Err::<&str, HandlerError>(HandlerError::NoOrganisation),
            },
    {
        match &self.organisation {
            Some(o) => Ok(o.as_str()),
            None => Err(HandlerError::NoOrganisation),
        }
    }

    /// Records the user a public key authenticated, with the API key made
    /// for the connection.
    pub fn accept(&mut self, user: User, auth_key: String)
        ensures
            final(self).authed matches Some(a) && a.user == user && a.auth_key == auth_key,
            final(self).input_bytes == old(self).input_bytes,
            final(self).output_bytes == old(self).output_bytes,
            final(self).codec == old(self).codec,
            final(self).organisation == old(self).organisation,
            final(self).is_git_protocol_v2 == old(self).is_git_protocol_v2,
    {
        self.authed = Some(Authed { user, auth_key });
    }

    /// An environment variable the client set: `GIT_PROTOCOL=version=2`
    /// selects protocol version 2; anything else is ignored.
    pub fn env_request(&mut self, name: &str, value: &str)
        ensures
            final(self).is_git_protocol_v2 == (old(self).is_git_protocol_v2 || (name@
                == "GIT_PROTOCOL"@ && value@ == "version=2"@)),
            final(self).input_bytes == old(self).input_bytes,
            final(self).output_bytes == old(self).output_bytes,
            final(self).codec == old(self).codec,
            final(self).organisation == old(self).organisation,
            final(self).authed == old(self).authed,
    {
        if str_eq(name, "GIT_PROTOCOL") && str_eq(value, "version=2") {
            self.is_git_protocol_v2 = true;
        }
    }

    /// Writes the capability advertisement.
    fn write_preamble(&mut self)
        ensures
            final(self).output_bytes@ == old(self).output_bytes@ + preamble(),
            final(self).input_bytes == old(self).input_bytes,
            final(self).codec == old(self).codec,
            final(self).organisation == old(self).organisation,
            final(self).authed == old(self).authed,
            final(self).is_git_protocol_v2 == old(self).is_git_protocol_v2,
    {
        let ghost start = self.output_bytes@;
        proof {
            reveal_strlit("version 2\n");
            reveal_strlit("agent=chartered-git/0.1.0\n");
            reveal_strlit("ls-refs=unborn\n");
            reveal_strlit("fetch=shallow wait-for-done\n");
            reveal_strlit("server-option\n");
            reveal_strlit("object-info\n");
        }
        let a = ascii_literal("version 2\n");
        self.write(PktLine::Data(a));
        let b = ascii_literal(AGENT);
        self.write(PktLine::Data(b));
        let c = ascii_literal("ls-refs=unborn\n");
        self.write(PktLine::Data(c));
        let d = ascii_literal("fetch=shallow wait-for-done\n");
        self.write(PktLine::Data(d));
        let e = ascii_literal("server-option\n");
        self.write(PktLine::Data(e));
        let f = ascii_literal("object-info\n");
        self.write(PktLine::Data(f));
        self.write(PktLine::Flush);
        assert(self.output_bytes@ =~= start + preamble());
    }

    /// The exec request the client opens the session with: it must ask for
    /// `git-upload-pack` over protocol version 2. The path after it names
    /// the organisation, without its slashes. On success the capabilities
    /// are written to the output; the result is `false` where no
    /// organisation was named, and the transport then sends the client
    /// `MISSING_ORGANISATION_MESSAGE` on the error stream and closes the
    /// channel before sending the output.
    pub fn exec_request(&mut self, data: &[u8]) -> (r: Result<bool, HandlerError>)
        ensures
            exec_effect(*old(self), *final(self), r, exec_outcome(old(self).is_git_protocol_v2, data@)),
    {
        let text = match str_from_utf8(data) {
            Some(t) => t,
            None => return Err(HandlerError::InvalidUtf8),
        };
        proof {
            vstd::utf8::encode_utf8_decode_utf8(text@);
        }
        assert(text@ == vstd::utf8::decode_utf8(data@));
        let words = split_shell_words(text);
        self.exec_with_words(words)
    }

    /// The exec request once its text is split into `words` (`None` where
    /// the quoting was unbalanced): it must ask for `git-upload-pack` over
    /// protocol version 2, and the path after it names the organisation.
    pub fn exec_with_words(&mut self, words: Option<Vec<String>>) -> (r: Result<bool, HandlerError>)
        ensures
            exec_effect(
                *old(self),
                *final(self),
                r,
                exec_words_outcome(old(self).is_git_protocol_v2, words_view(words)),
            ),
    {
        if !self.is_git_protocol_v2 {
            return Err(HandlerError::NotProtocolV2);
        }
        let ghost spec_words = words_view(words);
        let args = match words {
            Some(w) => w,
            None => Vec::new(),
        };
        let ghost spec_args = exec_args(spec_words);
        assert(args@.map_values(|w: String| w@) =~= spec_args);
        if args.len() == 0 || !str_eq(args[0].as_str(), "git-upload-pack") {
            proof {
                if args.len() > 0 {
                    assert(spec_args[0] == args@[0]@);
                }
            }
            return Err(HandlerError::NotUploadPack);
        }
        assert(spec_args[0] == args@[0]@);
        let named = if args.len() >= 2 && !str_eq(args[1].as_str(), "/") {
            assert(spec_args[1] == args@[1]@);
            let org = trim_slashes(args[1].as_str());
            self.organisation = Some(org);
            true
        } else {
            proof {
                if args.len() >= 2 {
                    assert(spec_args[1] == args@[1]@);
                }
            }
            false
        };
        self.write_preamble();
        Ok(named)
    }

    /// The message for a client that asked for a shell: written to the
    /// output, greeting the authenticated user by username.
    pub fn shell_request(&mut self) -> (r: Result<(), HandlerError>)
        ensures
            match old(self).authed {
                None => r == Err::<(), HandlerError>(HandlerError::NotAuthenticated)
                    && *final(self) == *old(self),
                Some(a) => {
                    &&& r == Ok::<(), HandlerError>(())
                    &&& final(self).output_bytes@ == old(self).output_bytes@ + ascii_bytes(
                        "Hi there, "@,
                    ) + vstd::utf8::encode_utf8(a.user.username@) + ascii_bytes(
                        "! You've successfully authenticated, but chartered does not provide shell access.\r\n"@,
                    )
                    &&& final(self).input_bytes == old(self).input_bytes
                    &&& final(self).codec == old(self).codec
                    &&& final(self).organisation == old(self).organisation
                    &&& final(self).authed == old(self).authed
                    &&& final(self).is_git_protocol_v2 == old(self).is_git_protocol_v2
                },
            },
    {
        let ghost start = self.output_bytes@;
        proof {
            reveal_strlit("Hi there, ");
            reveal_strlit(
                "! You've successfully authenticated, but chartered does not provide shell access.\r\n",
            );
        }
        let greeting = ascii_literal("Hi there, ");
        let rest = ascii_literal(
            "! You've successfully authenticated, but chartered does not provide shell access.\r\n",
        );
        let name = match &self.authed {
            Some(a) => a.user.username.as_str().as_bytes(),
            None => return Err(HandlerError::NotAuthenticated),
        };
        super::push_all(&mut self.output_bytes, greeting);
        super::push_all(&mut self.output_bytes, name);
        super::push_all(&mut self.output_bytes, rest);
        Ok(())
    }
}


/// Whether `kind` is the command whose bytes are `command`.
pub open spec fn kind_matches(kind: CommandKind, command: Seq<u8>) -> bool {
    if command == ascii_bytes("command=ls-refs"@) {
        kind is LsRefs
    } else if command == ascii_bytes("command=fetch"@) {
        kind is Fetch
    } else {
        kind matches CommandKind::Unknown(c) && c@ == command
    }
}

/// Whether `r` is the answer to a whole command `parts` read on a
/// connection where `authenticated` and `has_organisation` say what is
/// known: a flush without a command closes the connection; any other
/// command needs an authenticated user and an organisation.
pub open spec fn frame_answer(
    r: Result<FrameAction, HandlerError>,
    parts: (Seq<u8>, Seq<Seq<u8>>),
    authenticated: bool,
    has_organisation: bool,
) -> bool {
    if parts.0.len() == 0 {
        r matches Ok(FrameAction::Close)
    } else if !authenticated {
        r == Err::<FrameAction, HandlerError>(HandlerError::NotAuthenticated)
    } else if !has_organisation {
        r == Err::<FrameAction, HandlerError>(HandlerError::NoOrganisation)
    } else {
        r matches Ok(FrameAction::Command(kind, metadata)) && kind_matches(kind, parts.0)
            && metadata@.map_values(|m: Vec<u8>| m@) == parts.1
    }
}

/// Whether the client said `done`: it wants the packfile without any
/// negotiation.
pub open spec fn client_done(metadata: Seq<Seq<u8>>) -> bool {
    exists|i: int| 0 <= i < metadata.len() && metadata[i] == ascii_bytes("done"@)
}

/// What the server sends before the packfile in answer to a fetch.
pub open spec fn fetch_head(done: bool) -> Seq<u8> {
    (if done {
        Seq::<u8>::empty()
    } else {
        data_line(ascii_bytes("acknowledgments\n"@)) + data_line(ascii_bytes("ready\n"@))
            + super::marker(1)
    }) + data_line(ascii_bytes("packfile\n"@)) + super::length_field(
        ascii_bytes("Hello from chartered!\n"@).len() + 1,
    ) + seq![2u8] + ascii_bytes("Hello from chartered!\n"@)
}

/// The client counts as done exactly when some metadata line, at any
/// position, is the four bytes `done`.
pub proof fn lemma_client_done_any_line(metadata: Seq<Seq<u8>>)
    ensures
        client_done(metadata) <==> exists|i: int|
            0 <= i < metadata.len() && #[trigger] metadata[i] == seq![100u8, 111u8, 110u8, 101u8],
{
    reveal_strlit("done");
    assert(ascii_bytes("done"@) =~= seq![100u8, 111u8, 110u8, 101u8]);
}

/// A client that is done gets no acknowledgments: the head for one that is
/// not is the acknowledgments section (`acknowledgments`, `ready`, a
/// delimiter) followed by the head for one that is.
pub proof fn lemma_fetch_head_acknowledgments()
    ensures
        fetch_head(false) == data_line(ascii_bytes("acknowledgments\n"@)) + data_line(
            ascii_bytes("ready\n"@),
        ) + super::marker(1) + fetch_head(true),
        fetch_head(false).len() > fetch_head(true).len(),
{
    reveal_strlit("acknowledgments\n");
    let ack = data_line(ascii_bytes("acknowledgments\n"@)) + data_line(ascii_bytes("ready\n"@))
        + super::marker(1);
    let tail = data_line(ascii_bytes("packfile\n"@)) + super::length_field(
        ascii_bytes("Hello from chartered!\n"@).len() + 1,
    ) + seq![2u8] + ascii_bytes("Hello from chartered!\n"@);
    assert(fetch_head(false) =~= ack + fetch_head(true)) by {
        assert(fetch_head(true) =~= Seq::<u8>::empty() + tail);
        assert(fetch_head(false) =~= ack + tail);
    }
}

impl Handler {
    /// Reads the next whole command from the bytes received so far and says
    /// what to do about it.
    pub fn next_frame(&mut self) -> (r: Result<FrameAction, HandlerError>)
        ensures
            ({
                let out = super::codec::decode_spec(
                    old(self).codec.pending().0,
                    old(self).codec.pending().1,
                    old(self).input_bytes@,
                );
                &&& final(self).input_bytes@ == out.rest
                &&& final(self).codec.pending() == (out.command, out.metadata)
                &&& final(self).output_bytes == old(self).output_bytes
                &&& final(self).organisation == old(self).organisation
                &&& final(self).authed == old(self).authed
                &&& final(self).is_git_protocol_v2 == old(self).is_git_protocol_v2
                &&& match out.result {
                    Err(e) => r == Err::<FrameAction, HandlerError>(HandlerError::Decode(e)),
                    Ok(None) => r matches Ok(FrameAction::NeedMore),
                    Ok(Some(parts)) => frame_answer(
                        r,
                        parts,
                        old(self).authed is Some,
                        old(self).organisation is Some,
                    ),
                }
            }),
    {
        let frame = match self.codec.decode(&mut self.input_bytes) {
            Err(e) => return Err(HandlerError::Decode(e)),
            Ok(None) => return Ok(FrameAction::NeedMore),
            Ok(Some(f)) => f,
        };
        let ghost parts = frame.view_parts();
        if frame.command.len() == 0 {
            return Ok(FrameAction::Close);
        }
        if self.authed.is_none() {
            return Err(HandlerError::NotAuthenticated);
        }
        if self.organisation.is_none() {
            return Err(HandlerError::NoOrganisation);
        }
        proof {
            reveal_strlit("command=ls-refs");
            reveal_strlit("command=fetch");
        }
        let GitCommand { command, metadata } = frame;
        let kind = if bytes_eq(command.as_slice(), ascii_literal("command=ls-refs")) {
            CommandKind::LsRefs
        } else if bytes_eq(command.as_slice(), ascii_literal("command=fetch")) {
            CommandKind::Fetch
        } else {
            CommandKind::Unknown(command)
        };
        Ok(FrameAction::Command(kind, metadata))
    }

    /// Writes what comes before the packfile in answer to a fetch: unless
    /// the client said `done`, that nothing is in common; then the packfile
    /// header and a greeting on the message side-band.
    pub fn write_fetch_head(&mut self, metadata: &Vec<Vec<u8>>)
        ensures
            final(self).output_bytes@ == old(self).output_bytes@ + fetch_head(
                client_done(metadata@.map_values(|m: Vec<u8>| m@)),
            ),
            final(self).input_bytes == old(self).input_bytes,
            final(self).codec == old(self).codec,
            final(self).organisation == old(self).organisation,
            final(self).authed == old(self).authed,
            final(self).is_git_protocol_v2 == old(self).is_git_protocol_v2,
    {
        let ghost start = self.output_bytes@;
        let ghost lines = metadata@.map_values(|m: Vec<u8>| m@);
        proof {
            reveal_strlit("done");
            reveal_strlit("acknowledgments\n");
            reveal_strlit("ready\n");
            reveal_strlit("packfile\n");
            reveal_strlit("Hello from chartered!\n");
        }
        let done_bytes = ascii_literal("done");
        let mut done = false;
        let mut i: usize = 0;
        while i < metadata.len()
            invariant
                i <= metadata@.len(),
                lines == metadata@.map_values(|m: Vec<u8>| m@),
                done_bytes@ == ascii_bytes("done"@),
                done == exists|j: int| 0 <= j < i && lines[j] == ascii_bytes("done"@),
            decreases metadata@.len() - i,
        {
            if bytes_eq(metadata[i].as_slice(), done_bytes) {
                assert(lines[i as int] == ascii_bytes("done"@));
                done = true;
            }
            i = i + 1;
        }
        if !done {
            let a = ascii_literal("acknowledgments\n");
            self.write(PktLine::Data(a));
            let b = ascii_literal("ready\n");
            self.write(PktLine::Data(b));
            self.write(PktLine::Delimiter);
        }
        let c = ascii_literal("packfile\n");
        self.write(PktLine::Data(c));
        let d = ascii_literal("Hello from chartered!\n");
        self.write(PktLine::SidebandMsg(d));
        assert(self.output_bytes@ =~= start + fetch_head(client_done(lines)));
    }

    /// Writes the packfile on the data side-band, then a flush. After
    /// sending it the transport reports exit status 0, sends end of file and
    /// closes the channel.
    pub fn write_packfile(&mut self, packfile: &[u8])
        requires
            packfile@.len() + 5 <= usize::MAX,
        ensures
            final(self).output_bytes@ == old(self).output_bytes@ + pkt_line_bytes(
                PktLine::SidebandData(packfile),
            ) + super::marker(0),
            final(self).input_bytes == old(self).input_bytes,
            final(self).codec == old(self).codec,
            final(self).organisation == old(self).organisation,
            final(self).authed == old(self).authed,
            final(self).is_git_protocol_v2 == old(self).is_git_protocol_v2,
    {
        self.write(PktLine::SidebandData(packfile));
        self.write(PktLine::Flush);
    }
}

impl Handler {
    /// The answer to a fetch, in the two parts the transport sends one
    /// after the other: what comes before the packfile, then the packfile on
    /// the data side-band and a flush. After the second part the transport
    /// reports exit status 0, sends end of file and closes the channel.
    pub fn fetch(&mut self, metadata: &Vec<Vec<u8>>, packfile: &[u8]) -> (r: (Vec<u8>, Vec<u8>))
        requires
            packfile@.len() + 5 <= usize::MAX,
        ensures
            r.0@ == old(self).output_bytes@ + fetch_head(
                client_done(metadata@.map_values(|m: Vec<u8>| m@)),
            ),
            r.1@ == pkt_line_bytes(PktLine::SidebandData(packfile)) + super::marker(0),
            final(self).output_bytes@ == Seq::<u8>::empty(),
            final(self).input_bytes == old(self).input_bytes,
            final(self).codec == old(self).codec,
            final(self).organisation == old(self).organisation,
            final(self).authed == old(self).authed,
            final(self).is_git_protocol_v2 == old(self).is_git_protocol_v2,
    {
        self.write_fetch_head(metadata);
        let head = self.take_output();
        self.write_packfile(packfile);
        let body = self.take_output();
        assert(body@ =~= pkt_line_bytes(PktLine::SidebandData(packfile)) + super::marker(0));
        (head, body)
    }
}

} // verus!
