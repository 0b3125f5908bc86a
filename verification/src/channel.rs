//! What the read loops on the shell channel decide: when draining the
//! channel stops, whether a block needs one more read before it is cleaned,
//! and how a block is cleaned.

use vstd::prelude::*;
use crate::buffer_pool::{utf8_decode, utf8_decode_lossy, utf8_decoded, utf8_lossy};
use crate::session::{
    ansi_escape_pattern, crlf_pattern, normalize_linefeeds, replaced_or_same, strip_ansi_escape_codes, ChannelRead,
};
use crate::error::NetsshError;
use crate::text::{chars_of, contains, decimal, str_contains, trim, trim_str, u64_to_string};

verus! {

/// The text of a block of bytes: its UTF-8 decoding, or the lossy decoding
/// when the bytes are not valid UTF-8.
pub open spec fn chunk_text(bytes: Seq<u8>) -> Seq<char> {
    match utf8_decoded(bytes) {
        Some(d) => d,
        None => utf8_lossy(bytes),
    }
}

/// Decodes a block of bytes read from the channel.
pub fn decode_chunk(bytes: &Vec<u8>) -> (s: String)
    ensures
        s@ == chunk_text(bytes@),
{
    match utf8_decode(bytes) {
        Ok(s) => s,
        Err(_) => utf8_decode_lossy(bytes),
    }
}

/// What a drain of the channel does after one read.
#[derive(Debug, Clone, Copy, PartialEq, Eq, Structural)]
pub enum DrainStep {
    /// Read again at once.
    ReadAgain,
    /// Nothing was ready yet: wait a little, then read again.
    WaitThenRead,
    /// The drain is over; its output is what was gathered.
    Finished,
}

/// The state of a drain: the text that ends it, what was gathered, and
/// whether any data arrived at all.
pub struct DrainView {
    pub stop_text: Seq<char>,
    pub output: Seq<char>,
    pub read_something: bool,
}

/// Whether gathered output ends a drain: it holds the stop text, or a prompt
/// terminator (`>` or `#`).
pub open spec fn drain_done(output: Seq<char>, stop_text: Seq<char>) -> bool {
    contains(output, stop_text) || contains(output, ">"@) || contains(output, "#"@)
}

/// Reads what the channel has ready, up to a prompt terminator or a stop text.
pub struct ChannelDrain {
    stop_text: String,
    output: String,
    read_something: bool,
}

impl View for ChannelDrain {
    type V = DrainView;

    closed spec fn view(&self) -> DrainView {
        DrainView { stop_text: self.stop_text@, output: self.output@, read_something: self.read_something }
    }
}

impl ChannelDrain {
    /// A drain that also stops at `stop_text`.
    pub fn new(stop_text: &str) -> (d: Self)
        ensures
            d@ == (DrainView { stop_text: stop_text@, output: Seq::empty(), read_something: false }),
    {
        ChannelDrain { stop_text: stop_text.to_owned(), output: String::new(), read_something: false }
    }

    /// The drain of a plain read, which also stops at a password prompt.
    pub fn for_read() -> (d: Self)
        ensures
            d@ == (DrainView { stop_text: "assword:"@, output: Seq::empty(), read_something: false }),
    {
        Self::new("assword:")
    }

    /// The output gathered so far.
    pub fn output(&self) -> (r: &String)
        ensures
            r@ == self@.output,
    {
        &self.output
    }

    /// The gathered output.
    pub fn into_output(self) -> (r: String)
        ensures
            r@ == self@.output,
    {
        self.output
    }

    /// Takes in what one read gave and says what comes next. Data is added to
    /// the output, and the drain ends once the output holds the stop text or a
    /// prompt terminator. A closed stream or a failed read ends it. When no
    /// data was ready, the drain ends if nothing arrived yet, and otherwise
    /// waits and reads again.
    pub fn step(&mut self, event: ChannelRead) -> (s: DrainStep)
        ensures
            final(self)@.stop_text == old(self)@.stop_text,
            match event {
                ChannelRead::Data(b) => {
                    let out = old(self)@.output + chunk_text(b@);
                    &&& final(self)@.output == out
                    &&& final(self)@.read_something
                    &&& s == if drain_done(out, old(self)@.stop_text) {
                        DrainStep::Finished
                    } else {
                        DrainStep::ReadAgain
                    }
                },
                ChannelRead::NoData => {
                    &&& final(self)@ == old(self)@
                    &&& s == if old(self)@.read_something {
                        DrainStep::WaitThenRead
                    } else {
                        DrainStep::Finished
                    }
                },
                _ => final(self)@ == old(self)@ && s == DrainStep::Finished,
            },
    {
        proof {
            reveal_strlit(">");
            reveal_strlit("#");
        }
        match event {
            ChannelRead::Data(b) => {
                let text = decode_chunk(&b);
                self.output.append(text.as_str());
                self.read_something = true;
                if str_contains(self.output.as_str(), self.stop_text.as_str())
                    || str_contains(self.output.as_str(), ">")
                    || str_contains(self.output.as_str(), "#")
                {
                    DrainStep::Finished
                } else {
                    DrainStep::ReadAgain
                }
            },
            ChannelRead::NoData => {
                if self.read_something {
                    DrainStep::WaitThenRead
                } else {
                    DrainStep::Finished
                }
            },
            _ => DrainStep::Finished,
        }
    }
}

/// A block that holds a line feed but ends in a carriage return is waiting
/// for the rest of its line ending.
pub open spec fn wants_more(data: Seq<char>) -> bool {
    data.contains('\n') && data.len() > 0 && data.last() == '\r'
}

/// Whether a block holds a line feed and ends in a carriage return, so that
/// one more read should be added before its line endings are normalised.
pub fn read_needs_more(data: &str) -> (b: bool)
    ensures
        b == wants_more(data@),
{
    let v = chars_of(data);
    let n = v.len();
    if n == 0 || v[n - 1] != '\r' {
        return false;
    }
    let mut i: usize = 0;
    while i < n
        invariant
            v@ == data@,
            n == v@.len(),
            n > 0 && v@[n - 1] == '\r',
            0 <= i <= n,
            forall|j: int| 0 <= j < i ==> v@[j] != '\n',
        decreases n - i,
    {
        if v[i] == '\n' {
            assert(data@[i as int] == '\n');
            assert(data@.contains('\n'));
            assert(data@.last() == '\r');
            return true;
        }
        i = i + 1;
    }
    false
}

/// A block as a read hands it on: line endings normalised unless that is
/// switched off (and the block is not empty), then ANSI escape sequences
/// removed when that is switched on.
pub open spec fn processed_read(data: Seq<char>, normalize_lf: bool, strip_ansi: bool) -> Seq<char> {
    let a = if normalize_lf && data.len() > 0 { replaced_or_same(crlf_pattern(), data, "\n"@) } else { data };
    if strip_ansi { replaced_or_same(ansi_escape_pattern(), a, ""@) } else { a }
}

/// Cleans a block read from the channel.
pub fn process_read(data: String, normalize_lf: bool, strip_ansi: bool) -> (r: String)
    ensures
        r@ == processed_read(data@, normalize_lf, strip_ansi),
{
    let a = if normalize_lf && !data.as_str().is_empty() { normalize_linefeeds(data.as_str()) } else { data };
    if strip_ansi {
        strip_ansi_escape_codes(a.as_str())
    } else {
        a
    }
}

/// What was read as the prompt, or the error when nothing was.
pub fn prompt_result(prompt: String) -> (r: Result<String, NetsshError>)
    ensures
        prompt@.len() == 0 ==> (r matches Err(NetsshError::PromptError(m)) && m@ == "Unable to find prompt"@),
        prompt@.len() > 0 ==> (r matches Ok(p) && p@ == prompt@),
{
    if prompt.as_str().is_empty() {
        Err(NetsshError::PromptError(String::from_str("Unable to find prompt")))
    } else {
        Ok(prompt)
    }
}

/// The most probes sent after the first read, plus one.
pub const MAX_PROMPT_PROBES: usize = 13;

/// The pause before the next probe: doubled while it is at most three
/// seconds, one second longer after that (never beyond the largest `u64`).
pub open spec fn next_probe_delay(delay_ms: nat) -> nat {
    if delay_ms <= 3000 {
        delay_ms * 2
    } else if delay_ms + 1000 <= u64::MAX {
        delay_ms + 1000
    } else {
        u64::MAX as nat
    }
}

/// The state of the search for the prompt: what was read as the prompt
/// (trimmed), the probes sent, and the pause before the next probe.
pub struct ProbeView {
    pub prompt: Seq<char>,
    pub probes: nat,
    pub delay_ms: nat,
}

/// Whether another probe is sent: no prompt yet and probes left.
pub open spec fn probing(v: ProbeView) -> bool {
    v.probes < MAX_PROMPT_PROBES && v.prompt.len() == 0
}

/// What the search for the prompt does next.
#[derive(Debug)]
pub enum ProbeStep {
    /// Send a line feed, pause this many milliseconds, then read.
    Probe { sleep_ms: u64 },
    /// The search is over with this outcome.
    Done(Result<String, NetsshError>),
}

/// Looks for the prompt by sending line feeds until the device answers.
pub struct PromptProbe {
    prompt: String,
    probes: usize,
    delay_ms: u64,
}

impl View for PromptProbe {
    type V = ProbeView;

    closed spec fn view(&self) -> ProbeView {
        ProbeView { prompt: self.prompt@, probes: self.probes as nat, delay_ms: self.delay_ms as nat }
    }
}

impl PromptProbe {
    /// Starts from the first read after a line feed; later probes first pause
    /// `delay_ms` milliseconds.
    pub fn new(first_read: &str, delay_ms: u64) -> (p: Self)
        ensures
            p@ == (ProbeView { prompt: trim(first_read@), probes: 0, delay_ms: delay_ms as nat }),
    {
        PromptProbe { prompt: trim_str(first_read), probes: 0, delay_ms }
    }

    /// Another probe while no prompt was read and probes are left; otherwise
    /// the prompt read, or the error when it stayed empty.
    pub fn next(&self) -> (s: ProbeStep)
        ensures
            probing(self@) ==> s == (ProbeStep::Probe { sleep_ms: self@.delay_ms as u64 }),
            !probing(self@) && self@.prompt.len() == 0 ==> (s matches ProbeStep::Done(Err(NetsshError::PromptError(m)))
                && m@ == "Unable to find prompt"@),
            !probing(self@) && self@.prompt.len() > 0 ==> (s matches ProbeStep::Done(Ok(p)) && p@ == self@.prompt),
    {
        if self.probes < MAX_PROMPT_PROBES && self.prompt.as_str().is_empty() {
            ProbeStep::Probe { sleep_ms: self.delay_ms }
        } else {
            ProbeStep::Done(prompt_result(self.prompt.clone()))
        }
    }

    /// Takes in the read after a probe: its trimmed text becomes the prompt,
    /// a timed-out read leaves the prompt as it was, and any other error ends
    /// the search with that error. Either way but the last, one more probe is
    /// counted and the pause grows.
    pub fn feed(&mut self, read: Result<String, NetsshError>) -> (r: Result<(), NetsshError>)
        requires
            probing(old(self)@),
        ensures
            match read {
                Ok(d) => r is Ok && final(self)@ == (ProbeView {
                    prompt: trim(d@),
                    probes: old(self)@.probes + 1,
                    delay_ms: next_probe_delay(old(self)@.delay_ms),
                }),
                Err(NetsshError::TimeoutError(m)) => r is Ok && final(self)@ == (ProbeView {
                    prompt: old(self)@.prompt,
                    probes: old(self)@.probes + 1,
                    delay_ms: next_probe_delay(old(self)@.delay_ms),
                }),
                Err(e) => r == Err::<(), NetsshError>(e) && final(self)@ == old(self)@,
            },
    {
        match read {
            Ok(d) => {
                self.prompt = trim_str(d.as_str());
            },
            Err(NetsshError::TimeoutError(_)) => {},
            Err(e) => {
                return Err(e);
            },
        }
        self.probes = self.probes + 1;
        self.delay_ms = if self.delay_ms <= 3000 {
            self.delay_ms * 2
        } else if self.delay_ms <= u64::MAX - 1000 {
            self.delay_ms + 1000
        } else {
            u64::MAX
        };
        Ok(())
    }
}

/// The message of a timed read whose absolute timer ran out after `secs` seconds.
pub open spec fn timing_timeout_message(secs: nat) -> Seq<char> {
    "\nread_channel_timing's absolute timer expired.\n\nThe network device was continually outputting data for longer than "@
        + decimal(secs)
        + " seconds.\n\nIf this is expected i.e. the command you are executing is continually emitting data for a long period of time, then you can set 'read_timeout=x' seconds. If you want to keep reading indefinitely (i.e. to only stop when there is no new data), then you can set 'read_timeout=0'.\n\nYou can look at the session_log or debug log for more information.\n"@
}

/// The error of a timed read whose absolute timer ran out after `secs` seconds.
pub fn timing_timeout_error(secs: u64) -> (e: NetsshError)
    ensures
        e matches NetsshError::TimeoutError(m) && m@ == timing_timeout_message(secs as nat),
{
    let mut m = String::from_str("\nread_channel_timing's absolute timer expired.\n\nThe network device was continually outputting data for longer than ");
    let n = u64_to_string(secs);
    m.append(n.as_str());
    m.append(" seconds.\n\nIf this is expected i.e. the command you are executing is continually emitting data for a long period of time, then you can set 'read_timeout=x' seconds. If you want to keep reading indefinitely (i.e. to only stop when there is no new data), then you can set 'read_timeout=0'.\n\nYou can look at the session_log or debug log for more information.\n");
    NetsshError::TimeoutError(m)
}

} // verus!
