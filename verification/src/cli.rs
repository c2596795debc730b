//! Decisions of the `stt` command-line client: query-string encoding,
//! reading an install operation's progress, the daemon's error shape,
//! the conformance table's rows, which files a benchmark takes as clips,
//! and the WAV header fields it needs for a clip's duration.
use vstd::prelude::*;

use crate::text::{chars_of, concat, decimal, owned, push_char, push_decimal};
use vstd::string::StringSliceAdditionalSpecFns;

verus! {

/// Bytes a query component keeps as they are: RFC 3986 "unreserved".
pub open spec fn is_unreserved(b: u8) -> bool {
    (65 <= b && b <= 90) || (97 <= b && b <= 122) || (48 <= b && b <= 57) || b == 45 || b == 95
        || b == 46 || b == 126
}

/// Upper-case hex digit of `d < 16`.
pub open spec fn hex_upper(d: int) -> char {
    if d < 10 {
        (48 + d) as char
    } else {
        (55 + d) as char
    }
}

/// One byte's encoding: itself when unreserved, else `%XX`.
pub open spec fn encode_byte(b: u8) -> Seq<char> {
    if is_unreserved(b) {
        seq![b as char]
    } else {
        seq!['%', hex_upper((b / 16) as int), hex_upper((b % 16) as int)]
    }
}

/// Percent-encoding of a byte string.
pub open spec fn percent_encode(bs: Seq<u8>) -> Seq<char>
    decreases bs.len(),
{
    if bs.len() == 0 {
        Seq::empty()
    } else {
        percent_encode(bs.drop_last()) + encode_byte(bs.last())
    }
}

fn hex_digit(d: u8) -> (r: char)
    requires
        d < 16,
    ensures
        r == hex_upper(d as int),
{
    if d < 10 {
        (48 + d) as char
    } else {
        (55 + d) as char
    }
}

/// Percent-encodes every byte of `value`'s UTF-8 form outside the
/// unreserved set (`A-Z a-z 0-9 - _ . ~`).
pub fn urlencoding_component(value: &str) -> (r: String)
    ensures
        r@ == percent_encode(value.spec_bytes()),
{
    let bytes = value.as_bytes();
    let mut out = String::new();
    let mut i: usize = 0;
    while i < bytes.len()
        invariant
            bytes@ == value.spec_bytes(),
            i <= bytes@.len(),
            out@ == percent_encode(bytes@.take(i as int)),
        decreases bytes.len() - i,
    {
        let b = bytes[i];
        let ghost before = out@;
        let unreserved = (65 <= b && b <= 90) || (97 <= b && b <= 122) || (48 <= b && b <= 57) || b
            == 45 || b == 95 || b == 46 || b == 126;
        if unreserved {
            push_char(&mut out, b as char);
        } else {
            push_char(&mut out, '%');
            push_char(&mut out, hex_digit(b / 16));
            push_char(&mut out, hex_digit(b % 16));
        }
        assert(bytes@.take(i + 1).drop_last() =~= bytes@.take(i as int));
        assert(out@ =~= before + encode_byte(b));
        i += 1;
    }
    assert(bytes@.take(bytes@.len() as int) =~= bytes@);
    out
}

/// `<path>?provider=<p>&model=<m>`, both values percent-encoded.
pub fn model_query_path(path: &str, provider: &str, model: &str) -> (r: String)
    ensures
        r@ == path@ + "?provider="@ + percent_encode(provider.spec_bytes()) + "&model="@
            + percent_encode(model.spec_bytes()),
{
    let mut r = concat(path, "?provider=");
    let p = urlencoding_component(provider);
    r.append(p.as_str());
    r.append("&model=");
    let m = urlencoding_component(model);
    r.append(m.as_str());
    r
}

/// What one poll of an install operation means.
#[derive(Debug)]
pub enum PollStep {
    /// Still downloading: the progress line to show.
    Progress(String),
    Complete,
    /// Failed: the error to report.
    Failed(String),
    /// A status this client does not know: the error to report.
    Unexpected(String),
}

/// Reads one poll of `/v1/install-operations/<id>`: its `status`,
/// `downloadedBytes` (0 when absent), `totalBytes` and `error`.
pub fn poll_step(status: &str, downloaded: Option<u64>, total: Option<u64>, error: Option<&str>) -> (r:
    PollStep)
    ensures
        status@ == "downloading"@ ==> ({
            let d = match downloaded {
                Some(x) => x,
                None => 0,
            };
            r matches PollStep::Progress(m) && m@ == (match total {
                Some(t) => if t > 0 {
                    "\r  "@ + decimal(d as nat) + "/"@ + decimal(t as nat) + " bytes"@
                } else {
                    "\r  "@ + decimal(d as nat) + " bytes"@
                },
                None => "\r  "@ + decimal(d as nat) + " bytes"@,
            })
        }),
        status@ == "complete"@ ==> r is Complete,
        status@ == "failed"@ ==> (r matches PollStep::Failed(m) && m@ == "operation failed: "@
            + (match error {
            Some(e) => e@,
            None => "operation failed"@,
        })),
        status@ != "downloading"@ && status@ != "complete"@ && status@ != "failed"@ ==> (r matches PollStep::Unexpected(
            m,
        ) && m@ == "unexpected operation status: "@ + status@),
{
    proof {
        reveal_strlit("downloading");
        reveal_strlit("complete");
        reveal_strlit("failed");
        assert("downloading"@.len() == 11);
        assert("complete"@.len() == 8);
        assert("failed"@.len() == 6);
    }
    if crate::text::str_eq(status, "downloading") {
        let d = match downloaded {
            Some(x) => x,
            None => 0,
        };
        let mut m = owned("\r  ");
        push_decimal(&mut m, d);
        match total {
            Some(t) => {
                if t > 0 {
                    m.append("/");
                    push_decimal(&mut m, t);
                }
            },
            None => {},
        }
        m.append(" bytes");
        PollStep::Progress(m)
    } else if crate::text::str_eq(status, "complete") {
        PollStep::Complete
    } else if crate::text::str_eq(status, "failed") {
        let e = match error {
            Some(e) => e,
            None => "operation failed",
        };
        PollStep::Failed(concat("operation failed: ", e))
    } else {
        PollStep::Unexpected(concat("unexpected operation status: ", status))
    }
}

/// The message of a failed daemon request: `[<code>] <message> (<status>)`,
/// with `ERROR` and `request failed` standing in for a missing code or
/// message.
pub fn request_error_message(code: Option<&str>, message: Option<&str>, status: &str) -> (r: String)
    ensures
        r@ == "["@ + (match code {
            Some(c) => c@,
            None => "ERROR"@,
        }) + "] "@ + (match message {
            Some(m) => m@,
            None => "request failed"@,
        }) + " ("@ + status@ + ")"@,
{
    let c = match code {
        Some(c) => c,
        None => "ERROR",
    };
    let m = match message {
        Some(m) => m,
        None => "request failed",
    };
    let mut r = concat("[", c);
    r.append("] ");
    r.append(m);
    r.append(" (");
    r.append(status);
    r.append(")");
    r
}

/// `s` padded with spaces on the right to `width` characters (unchanged
/// when already as wide), as `{:<width}` formats it.
pub open spec fn pad_right(s: Seq<char>, width: nat) -> Seq<char> {
    if s.len() >= width {
        s
    } else {
        s + Seq::new((width - s.len()) as nat, |i: int| ' ')
    }
}

fn push_padded(out: &mut String, s: &str, width: usize)
    ensures
        final(out)@ == old(out)@ + pad_right(s@, width as nat),
{
    let n = crate::text::chars_of(s).len();
    out.append(s);
    if n < width {
        let ghost base = out@;
        let mut k: usize = n;
        while k < width
            invariant
                n <= k <= width,
                n == s@.len(),
                base == old(out)@ + s@,
                out@ == base + Seq::new((k - n) as nat, |i: int| ' '),
            decreases width - k,
        {
            push_char(out, ' ');
            assert(Seq::new((k + 1 - n) as nat, |i: int| ' ') =~= Seq::new(
                (k - n) as nat,
                |i: int| ' ',
            ).push(' '));
            k += 1;
        }
    }
}

/// A row of the conformance table: `PASS`/`FAIL`, the provider padded to
/// 16, the check padded to 28, and its detail.
pub fn check_row(provider_id: &str, passed: bool, name: &str, detail: &str) -> (r: String)
    ensures
        r@ == (if passed {
            "PASS"@
        } else {
            "FAIL"@
        }) + "  "@ + pad_right(provider_id@, 16) + " "@ + pad_right(name@, 28) + " "@ + detail@,
{
    let mut r = owned(if passed {
        "PASS"
    } else {
        "FAIL"
    });
    r.append("  ");
    push_padded(&mut r, provider_id, 16);
    r.append(" ");
    push_padded(&mut r, name, 28);
    r.append(" ");
    r.append(detail);
    r
}

/// A skipped provider's row: `SKIP`, the provider padded to 16, and why.
pub fn skip_row(provider_id: &str, reason: &str) -> (r: String)
    ensures
        r@ == "SKIP  "@ + pad_right(provider_id@, 16) + " "@ + reason@,
{
    let mut r = owned("SKIP  ");
    push_padded(&mut r, provider_id, 16);
    r.append(" ");
    r.append(reason);
    r
}

/// Whether a benchmark runs `provider_id`'s `model_id` under the optional
/// provider and model filters.
pub fn bench_selects(
    provider_filter: Option<&str>,
    model_filter: Option<&str>,
    provider_id: &str,
    model_id: &str,
) -> (r: bool)
    ensures
        r == ((match provider_filter {
            Some(p) => p@ == provider_id@,
            None => true,
        }) && (match model_filter {
            Some(m) => m@ == model_id@,
            None => true,
        })),
{
    let p_ok = match provider_filter {
        Some(p) => crate::text::str_eq(p, provider_id),
        None => true,
    };
    let m_ok = match model_filter {
        Some(m) => crate::text::str_eq(m, model_id),
        None => true,
    };
    p_ok && m_ok
}

/// Whether a start request carries a body: only when some option is set.
pub fn start_has_body(
    device: &Option<String>,
    compute_type: &Option<String>,
    bind_host: &Option<String>,
    auth_token: &Option<String>,
) -> (r: bool)
    ensures
        r == (device is Some || compute_type is Some || bind_host is Some || auth_token is Some),
{
    device.is_some() || compute_type.is_some() || bind_host.is_some() || auth_token.is_some()
}

// ── WAV headers ─────────────────────────────────────────────────────

/// Little-endian `u32` at `i`.
pub open spec fn le_u32(bs: Seq<u8>, i: int) -> nat {
    (bs[i] + bs[i + 1] * 256 + bs[i + 2] * 65536 + bs[i + 3] * 16777216) as nat
}

pub open spec fn tag_at(bs: Seq<u8>, i: int, tag: Seq<u8>) -> bool {
    bs.subrange(i, i + 4) == tag
}

pub open spec fn riff() -> Seq<u8> {
    seq![82u8, 73u8, 70u8, 70u8]
}

pub open spec fn wave() -> Seq<u8> {
    seq![87u8, 65u8, 86u8, 69u8]
}

pub open spec fn fmt_tag() -> Seq<u8> {
    seq![102u8, 109u8, 116u8, 32u8]
}

pub open spec fn data_tag() -> Seq<u8> {
    seq![100u8, 97u8, 116u8, 97u8]
}

/// Walks the chunks from `pos`: the last `fmt ` chunk with a full body
/// gives the byte rate, the last `data` chunk gives the data length.
pub open spec fn wav_scan(bs: Seq<u8>, pos: nat, byte_rate: Option<nat>, data_len: Option<nat>) -> (
    Option<nat>,
    Option<nat>,
)
    decreases bs.len() - pos,
{
    if pos + 8 <= bs.len() {
        let size = le_u32(bs, pos + 4 as int);
        let body = pos + 8;
        let br = if tag_at(bs, pos as int, fmt_tag()) && body + 16 <= bs.len() {
            Some(le_u32(bs, body + 8 as int))
        } else {
            byte_rate
        };
        let dl = if tag_at(bs, pos as int, data_tag()) {
            Some(size)
        } else {
            data_len
        };
        let next = body + size + size % 2;
        wav_scan(bs, if next >= bs.len() { bs.len() } else { next }, br, dl)
    } else {
        (byte_rate, data_len)
    }
}

/// The data length and byte rate a clip's duration is computed from:
/// nothing unless it is a RIFF/WAVE file of at least 44 bytes with both a
/// `fmt ` and a `data` chunk and a non-zero byte rate.
pub open spec fn spec_wav_duration_parts(bs: Seq<u8>) -> Option<(u32, u32)> {
    if bs.len() < 44 || !tag_at(bs, 0, riff()) || !tag_at(bs, 8, wave()) {
        None
    } else {
        let r = wav_scan(bs, 12, None, None);
        match (r.0, r.1) {
            (Some(br), Some(dl)) => if br == 0 {
                None
            } else {
                Some((dl as u32, br as u32))
            },
            _ => None,
        }
    }
}

fn read_le_u32(bs: &[u8], i: usize) -> (r: u32)
    requires
        i + 4 <= bs@.len(),
    ensures
        r == le_u32(bs@, i as int),
{
    let b0 = bs[i] as u32;
    let b1 = bs[i + 1] as u32;
    let b2 = bs[i + 2] as u32;
    let b3 = bs[i + 3] as u32;
    b0 + b1 * 256 + b2 * 65536 + b3 * 16777216
}

fn tag_is(bs: &[u8], i: usize, a: u8, b: u8, c: u8, d: u8) -> (r: bool)
    requires
        i + 4 <= bs@.len(),
    ensures
        r == (bs@.subrange(i as int, i + 4) == seq![a, b, c, d]),
{
    let r = bs[i] == a && bs[i + 1] == b && bs[i + 2] == c && bs[i + 3] == d;
    proof {
        if r {
            assert(bs@.subrange(i as int, i + 4) =~= seq![a, b, c, d]);
        } else {
            if bs@.subrange(i as int, i + 4) == seq![a, b, c, d] {
                assert(bs@.subrange(i as int, i + 4)[0] == a);
                assert(bs@.subrange(i as int, i + 4)[1] == b);
                assert(bs@.subrange(i as int, i + 4)[2] == c);
                assert(bs@.subrange(i as int, i + 4)[3] == d);
            }
        }
    }
    r
}

/// Reads the data length and byte rate of a WAV clip (see
/// [`spec_wav_duration_parts`]); the duration is their quotient.
pub fn wav_duration_parts(bs: &[u8]) -> (r: Option<(u32, u32)>)
    ensures
        r == spec_wav_duration_parts(bs@),
{
    let len = bs.len();
    if len < 44 || !tag_is(bs, 0, 82, 73, 70, 70) || !tag_is(bs, 8, 87, 65, 86, 69) {
        return None;
    }
    let mut pos: usize = 12;
    let mut byte_rate: Option<u32> = None;
    let mut data_len: Option<u32> = None;
    while pos <= len && len - pos >= 8
        invariant
            len == bs@.len(),
            pos <= len,
            wav_scan(bs@, 12, None, None) == wav_scan(
                bs@,
                pos as nat,
                match byte_rate {
                    Some(x) => Some(x as nat),
                    None => None,
                },
                match data_len {
                    Some(x) => Some(x as nat),
                    None => None,
                },
            ),
        decreases len - pos,
    {
        let size = read_le_u32(bs, pos + 4);
        let body = pos + 8;
        if tag_is(bs, pos, 102, 109, 116, 32) && len - body >= 16 {
            byte_rate = Some(read_le_u32(bs, body + 8));
        }
        if tag_is(bs, pos, 100, 97, 116, 97) {
            data_len = Some(size);
        }
        let step: u64 = (size as u64) + ((size % 2) as u64);
        if step >= (len - body) as u64 {
            pos = len;
        } else {
            pos = body + (step as usize);
        }
    }
    match (byte_rate, data_len) {
        (Some(br), Some(dl)) => {
            if br == 0 {
                None
            } else {
                Some((dl, br))
            }
        },
        _ => None,
    }
}

// ── Commands ────────────────────────────────────────────────────────

/// Provider catalog, install and lifecycle subcommands.
#[derive(Debug)]
pub enum ProviderCommands {
    List,
    Install { provider_id: String, variant: String },
    Update { provider_id: String, variant: String },
    RemoveVariant { provider_id: String, variant: String },
    Remove { provider_id: String },
    Start {
        provider_id: String,
        device: Option<String>,
        compute_type: Option<String>,
        bind_host: Option<String>,
        auth_token: Option<String>,
    },
    Stop { provider_id: String },
    Status { provider_id: String },
    Logs { provider_id: String, tail: usize },
}

/// Model catalog and selection subcommands.
#[derive(Debug)]
pub enum ModelCommands {
    List,
    Select { provider: String, model: String },
    Selected { provider: String },
    Pull { provider: String, model: String },
    Verify { provider: String, model: String },
    Remove { provider: String, model: String },
}

/// Arguments of `stt run`.
#[derive(Debug)]
pub struct RunArgs {
    pub host: String,
    pub port: u16,
    pub model_dir: Option<String>,
    pub default_model: Option<String>,
    pub max_sessions: usize,
    pub log_level: String,
    /// Seconds a managed runtime may sit idle before it is stopped; 0
    /// disables idle auto-stop.
    pub idle_timeout_secs: u64,
    pub allow_remote: bool,
    pub auth_token: Option<String>,
}

/// The idle timeout in milliseconds: none for 0 seconds (disabled),
/// saturating at the largest representable value.
pub fn idle_timeout_ms(secs: u64) -> (r: Option<u64>)
    ensures
        secs == 0 ==> r is None,
        secs > 0 ==> r == Some(if secs * 1000 <= u64::MAX {
            (secs * 1000) as u64
        } else {
            u64::MAX
        }),
{
    if secs == 0 {
        None
    } else {
        match secs.checked_mul(1000) {
            Some(ms) => Some(ms),
            None => Some(u64::MAX),
        }
    }
}

/// The server configuration `stt run` starts with: the arguments, with the
/// default model directory when none is given.
pub fn run_config(args: RunArgs, default_model_dir: String) -> (r: crate::config::ServerConfig)
    ensures
        r.host@ == args.host@,
        r.port == args.port,
        r.model_dir@ == (match args.model_dir {
            Some(d) => d@,
            None => default_model_dir@,
        }),
        r.default_model == args.default_model,
        r.max_sessions == args.max_sessions,
        r.log_level@ == args.log_level@,
        r.allow_remote == args.allow_remote,
        r.auth_token == args.auth_token,
{
    crate::config::ServerConfig {
        host: args.host,
        port: args.port,
        model_dir: match args.model_dir {
            Some(d) => d,
            None => default_model_dir,
        },
        default_model: args.default_model,
        max_sessions: args.max_sessions,
        log_level: args.log_level,
        allow_remote: args.allow_remote,
        auth_token: args.auth_token,
    }
}

/// `c` with an ASCII capital letter lowered.
pub open spec fn ascii_lower(c: char) -> char {
    if 'A' <= c && c <= 'Z' {
        ((c as int) + 32) as char
    } else {
        c
    }
}

/// A file name whose extension is `wav` in any ASCII case: it ends in a
/// `.` followed by `w`, `a`, `v`, and that dot is not the name's first
/// character (a name like `.wav` has no extension). The extension is what
/// follows the name's last dot, so it is `wav` exactly then.
pub open spec fn is_wav_name(name: Seq<char>) -> bool {
    &&& name.len() > 4
    &&& name[name.len() - 4] == '.'
    &&& ascii_lower(name[name.len() - 3]) == 'w'
    &&& ascii_lower(name[name.len() - 2]) == 'a'
    &&& ascii_lower(name[name.len() - 1]) == 'v'
}

fn lower(c: char) -> (r: char)
    ensures
        r == ascii_lower(c),
{
    if 'A' <= c && c <= 'Z' {
        let code = (c as u32) + 32;
        assert(code == (c as int) + 32);
        ((code as u8) as char)
    } else {
        c
    }
}

/// Whether a benchmark takes the file named `file_name` as a clip: its
/// extension is `wav`, ignoring ASCII case.
pub fn is_wav_clip(file_name: &str) -> (r: bool)
    ensures
        r == is_wav_name(file_name@),
{
    let v = chars_of(file_name);
    let n = v.len();
    if n <= 4 {
        return false;
    }
    v[n - 4] == '.' && lower(v[n - 3]) == 'w' && lower(v[n - 2]) == 'a' && lower(v[n - 1]) == 'v'
}

} // verus!
