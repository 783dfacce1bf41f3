//! Email composition state: new messages, replies, and forwards.

use vstd::prelude::*;

use crate::text::str_to_chars;

verus! {

/// Mode of email composition.
#[derive(Debug, Clone, Copy, PartialEq, Eq, Structural)]
pub enum ComposeMode {
    /// New email from scratch.
    New,
    /// Reply to the sender only.
    Reply,
    /// Reply to all recipients.
    ReplyAll,
    /// Forward an email.
    Forward,
}

impl ComposeMode {
    /// Display name for the mode.
    pub fn display_name(&self) -> (r: &'static str)
        ensures
            r@ == self.display_name_spec(),
    {
        match self {
            ComposeMode::New => "New Message",
            ComposeMode::Reply => "Reply",
            ComposeMode::ReplyAll => "Reply All",
            ComposeMode::Forward => "Forward",
        }
    }

    pub open spec fn display_name_spec(self) -> Seq<char> {
        match self {
            ComposeMode::New => "New Message"@,
            ComposeMode::Reply => "Reply"@,
            ComposeMode::ReplyAll => "Reply All"@,
            ComposeMode::Forward => "Forward"@,
        }
    }
}

impl Default for ComposeMode {
    fn default() -> (r: Self)
        ensures
            r == ComposeMode::New,
    {
        ComposeMode::New
    }
}

/// Draft attachment, not yet sent.
#[derive(Debug, Clone, PartialEq)]
pub struct AttachmentDraft {
    /// File path on disk.
    pub path: String,
    /// Original filename.
    pub filename: String,
    /// File size in bytes.
    pub size_bytes: i64,
    /// MIME type, if detected.
    pub mime_type: Option<String>,
}

/// Whether a subject already starts with a reply marker, compared without
/// regard to letter case.
pub open spec fn has_reply_prefix(s: Seq<char>) -> bool {
    &&& s.len() >= 3
    &&& (s[0] == 'r' || s[0] == 'R')
    &&& (s[1] == 'e' || s[1] == 'E')
    &&& s[2] == ':'
}

/// Whether a subject already starts with a forward marker, compared without
/// regard to letter case.
pub open spec fn has_forward_prefix(s: Seq<char>) -> bool {
    &&& s.len() >= 4
    &&& (s[0] == 'f' || s[0] == 'F')
    &&& (s[1] == 'w' || s[1] == 'W')
    &&& (s[2] == 'd' || s[2] == 'D')
    &&& s[3] == ':'
}

/// The subject of a reply: unchanged when it already carries a reply marker,
/// otherwise prefixed.
pub open spec fn reply_subject(s: Seq<char>) -> Seq<char> {
    if has_reply_prefix(s) {
        s
    } else {
        "Re: "@ + s
    }
}

/// The subject of a forward: unchanged when it already carries a forward
/// marker, otherwise prefixed.
pub open spec fn forward_subject(s: Seq<char>) -> Seq<char> {
    if has_forward_prefix(s) {
        s
    } else {
        "Fwd: "@ + s
    }
}

fn with_reply_prefix(subject: String) -> (r: String)
    ensures
        r@ == reply_subject(subject@),
{
    let chars = str_to_chars(subject.as_str());
    let marked = chars.len() >= 3 && (chars[0] == 'r' || chars[0] == 'R') && (chars[1] == 'e'
        || chars[1] == 'E') && chars[2] == ':';
    if marked {
        subject
    } else {
        "Re: ".to_owned().concat(subject.as_str())
    }
}

fn with_forward_prefix(subject: String) -> (r: String)
    ensures
        r@ == forward_subject(subject@),
{
    let chars = str_to_chars(subject.as_str());
    let marked = chars.len() >= 4 && (chars[0] == 'f' || chars[0] == 'F') && (chars[1] == 'w'
        || chars[1] == 'W') && (chars[2] == 'd' || chars[2] == 'D') && chars[3] == ':';
    if marked {
        subject
    } else {
        "Fwd: ".to_owned().concat(subject.as_str())
    }
}

/// Whether a sequence of recipient strings holds the given text.
pub open spec fn contains_str(v: Seq<String>, s: Seq<char>) -> bool {
    exists|i: int| 0 <= i < v.len() && v[i]@ == s
}

fn vec_contains_string(v: &Vec<String>, s: &String) -> (r: bool)
    ensures
        r == contains_str(v@, s@),
{
    let mut i: usize = 0;
    while i < v.len()
        invariant
            i <= v@.len(),
            forall|j: int| 0 <= j < i ==> v@[j]@ != s@,
        decreases v@.len() - i,
    {
        if v[i] == *s {
            return true;
        }
        i = i + 1;
    }
    false
}

/// State for the compose modal.
#[derive(Debug, Clone)]
pub struct ComposeState {
    /// Whether the compose modal is open.
    pub is_open: bool,
    /// Composition mode.
    pub mode: ComposeMode,
    /// Id of the message being replied to or forwarded.
    pub reply_to_id: Option<i64>,
    /// From account (email address).
    pub from_account: String,
    /// To recipients.
    pub to: Vec<String>,
    /// CC recipients.
    pub cc: Vec<String>,
    /// BCC recipients.
    pub bcc: Vec<String>,
    /// Email subject.
    pub subject: String,
    /// Email body.
    pub body: String,
    /// Draft attachments.
    pub attachments: Vec<AttachmentDraft>,
    /// Whether currently sending.
    pub is_sending: bool,
    /// Send error, if any.
    pub send_error: Option<String>,
    /// Whether the draft has unsaved changes.
    pub is_dirty: bool,
    /// Show the CC and BCC fields.
    pub show_cc_bcc: bool,
    /// Pending input for the To field.
    pub to_input: String,
    /// Pending input for the CC field.
    pub cc_input: String,
    /// Pending input for the BCC field.
    pub bcc_input: String,
}

impl ComposeState {
    /// Everything a close clears: all draft content gone; only the from
    /// account may be left over.
    pub open spec fn is_cleared(self) -> bool {
        &&& !self.is_open
        &&& self.mode == ComposeMode::New
        &&& self.reply_to_id matches Option::None
        &&& self.to@.len() == 0
        &&& self.cc@.len() == 0
        &&& self.bcc@.len() == 0
        &&& self.subject@.len() == 0
        &&& self.body@.len() == 0
        &&& self.attachments@.len() == 0
        &&& !self.is_sending
        &&& self.send_error matches Option::None
        &&& !self.is_dirty
        &&& !self.show_cc_bcc
        &&& self.to_input@.len() == 0
        &&& self.cc_input@.len() == 0
        &&& self.bcc_input@.len() == 0
    }

    /// A blank compose state: cleared, with no from account either.
    pub open spec fn is_blank(self) -> bool {
        &&& self.is_cleared()
        &&& self.from_account@.len() == 0
    }

    fn blank() -> (r: Self)
        ensures
            r.is_blank(),
    {
        ComposeState {
            is_open: false,
            mode: ComposeMode::New,
            reply_to_id: None,
            from_account: String::new(),
            to: Vec::new(),
            cc: Vec::new(),
            bcc: Vec::new(),
            subject: String::new(),
            body: String::new(),
            attachments: Vec::new(),
            is_sending: false,
            send_error: None,
            is_dirty: false,
            show_cc_bcc: false,
            to_input: String::new(),
            cc_input: String::new(),
            bcc_input: String::new(),
        }
    }

    /// Create a new, blank compose state.
    pub fn new() -> (r: Self)
        ensures
            r.is_blank(),
    {
        Self::blank()
    }

    /// Open compose for a new email.
    pub fn open_new(from_account: String) -> (r: Self)
        ensures
            r.is_open,
            r.mode == ComposeMode::New,
            r.from_account == from_account,
            r.reply_to_id matches Option::None,
            r.to@.len() == 0,
            r.cc@.len() == 0,
            r.bcc@.len() == 0,
            r.subject@.len() == 0,
            r.body@.len() == 0,
            r.attachments@.len() == 0,
            !r.is_sending,
            r.send_error matches Option::None,
            !r.is_dirty,
            r.to_input@.len() == 0,
            r.cc_input@.len() == 0,
            r.bcc_input@.len() == 0,
            !r.show_cc_bcc,
    {
        let mut r = Self::blank();
        r.is_open = true;
        r.from_account = from_account;
        r
    }

    /// Open compose for a reply: one recipient, the subject given a reply
    /// marker unless it already has one, and the quoted body below two blank
    /// lines.
    pub fn open_reply(
        from_account: String,
        reply_to_id: i64,
        to: String,
        subject: String,
        quoted_body: String,
    ) -> (r: Self)
        ensures
            r.is_open,
            r.mode == ComposeMode::Reply,
            r.reply_to_id == Some(reply_to_id),
            r.from_account == from_account,
            r.to@.len() == 1 && r.to@[0] == to,
            r.cc@.len() == 0,
            r.bcc@.len() == 0,
            r.subject@ == reply_subject(subject@),
            r.body@ == "\n\n"@ + quoted_body@,
            r.attachments@.len() == 0,
            !r.is_sending,
            r.send_error matches Option::None,
            !r.is_dirty,
            r.to_input@.len() == 0,
            r.cc_input@.len() == 0,
            r.bcc_input@.len() == 0,
            !r.show_cc_bcc,
    {
        let mut r = Self::blank();
        r.is_open = true;
        r.mode = ComposeMode::Reply;
        r.reply_to_id = Some(reply_to_id);
        r.from_account = from_account;
        r.to.push(to);
        r.subject = with_reply_prefix(subject);
        r.body = "\n\n".to_owned().concat(quoted_body.as_str());
        r
    }

    /// Open compose for reply-all: the given recipient lists, the CC field
    /// shown when a CC list came along.
    pub fn open_reply_all(
        from_account: String,
        reply_to_id: i64,
        to: Vec<String>,
        cc: Vec<String>,
        subject: String,
        quoted_body: String,
    ) -> (r: Self)
        ensures
            r.is_open,
            r.mode == ComposeMode::ReplyAll,
            r.reply_to_id == Some(reply_to_id),
            r.from_account == from_account,
            r.to == to,
            r.cc == cc,
            r.bcc@.len() == 0,
            r.subject@ == reply_subject(subject@),
            r.body@ == "\n\n"@ + quoted_body@,
            r.attachments@.len() == 0,
            !r.is_sending,
            r.send_error matches Option::None,
            !r.is_dirty,
            r.to_input@.len() == 0,
            r.cc_input@.len() == 0,
            r.bcc_input@.len() == 0,
            r.show_cc_bcc == (cc@.len() > 0),
    {
        let mut r = Self::blank();
        r.is_open = true;
        r.mode = ComposeMode::ReplyAll;
        r.reply_to_id = Some(reply_to_id);
        r.from_account = from_account;
        r.show_cc_bcc = cc.len() > 0;
        r.to = to;
        r.cc = cc;
        r.subject = with_reply_prefix(subject);
        r.body = "\n\n".to_owned().concat(quoted_body.as_str());
        r
    }

    /// Open compose for a forward: the subject given a forward marker unless
    /// it already has one, and the forwarded content below a separator.
    pub fn open_forward(
        from_account: String,
        original_id: i64,
        subject: String,
        forward_body: String,
    ) -> (r: Self)
        ensures
            r.is_open,
            r.mode == ComposeMode::Forward,
            r.reply_to_id == Some(original_id),
            r.from_account == from_account,
            r.to@.len() == 0,
            r.cc@.len() == 0,
            r.bcc@.len() == 0,
            r.subject@ == forward_subject(subject@),
            r.body@ == "\n\n---------- Forwarded message ----------\n"@ + forward_body@,
            r.attachments@.len() == 0,
            !r.is_sending,
            r.send_error matches Option::None,
            !r.is_dirty,
            r.to_input@.len() == 0,
            r.cc_input@.len() == 0,
            r.bcc_input@.len() == 0,
            !r.show_cc_bcc,
    {
        let mut r = Self::blank();
        r.is_open = true;
        r.mode = ComposeMode::Forward;
        r.reply_to_id = Some(original_id);
        r.from_account = from_account;
        r.subject = with_forward_prefix(subject);
        r.body = "\n\n---------- Forwarded message ----------\n".to_owned().concat(
            forward_body.as_str(),
        );
        r
    }

    /// Close the compose modal, discarding the draft but keeping the from
    /// account.
    pub fn close(&mut self)
        ensures
            final(self).is_cleared(),
            final(self).from_account == old(self).from_account,
    {
        self.is_open = false;
        self.mode = ComposeMode::New;
        self.reply_to_id = None;
        self.to = Vec::new();
        self.cc = Vec::new();
        self.bcc = Vec::new();
        self.subject = String::new();
        self.body = String::new();
        self.attachments = Vec::new();
        self.is_sending = false;
        self.send_error = None;
        self.is_dirty = false;
        self.show_cc_bcc = false;
        self.to_input = String::new();
        self.cc_input = String::new();
        self.bcc_input = String::new();
    }

    /// Whether there is content worth saving as a draft.
    pub fn has_content(&self) -> (r: bool)
        ensures
            r == (self.to@.len() > 0 || self.cc@.len() > 0 || self.bcc@.len() > 0
                || self.subject@.len() > 0 || self.body@.len() > 0 || self.attachments@.len() > 0),
    {
        self.to.len() > 0 || self.cc.len() > 0 || self.bcc.len() > 0
            || !self.subject.as_str().is_empty() || !self.body.as_str().is_empty()
            || self.attachments.len() > 0
    }

    /// Add a recipient to the To field, unless empty or already present.
    pub fn add_to(&mut self, email: String)
        ensures
            email@.len() > 0 && !contains_str(old(self).to@, email@) ==> *final(self)
                == (ComposeState {
                to: final(self).to,
                is_dirty: true,
                ..*old(self)
            }) && final(self).to@ == old(self).to@.push(email),
            email@.len() == 0 || contains_str(old(self).to@, email@) ==> *final(self) == *old(
                self,
            ),
    {
        if !email.as_str().is_empty() && !vec_contains_string(&self.to, &email) {
            self.to.push(email);
            self.is_dirty = true;
        }
    }

    /// Add a recipient to the CC field, unless empty or already present.
    pub fn add_cc(&mut self, email: String)
        ensures
            email@.len() > 0 && !contains_str(old(self).cc@, email@) ==> *final(self)
                == (ComposeState {
                cc: final(self).cc,
                is_dirty: true,
                ..*old(self)
            }) && final(self).cc@ == old(self).cc@.push(email),
            email@.len() == 0 || contains_str(old(self).cc@, email@) ==> *final(self) == *old(
                self,
            ),
    {
        if !email.as_str().is_empty() && !vec_contains_string(&self.cc, &email) {
            self.cc.push(email);
            self.is_dirty = true;
        }
    }

    /// Add a recipient to the BCC field, unless empty or already present.
    pub fn add_bcc(&mut self, email: String)
        ensures
            email@.len() > 0 && !contains_str(old(self).bcc@, email@) ==> *final(self)
                == (ComposeState {
                bcc: final(self).bcc,
                is_dirty: true,
                ..*old(self)
            }) && final(self).bcc@ == old(self).bcc@.push(email),
            email@.len() == 0 || contains_str(old(self).bcc@, email@) ==> *final(self) == *old(
                self,
            ),
    {
        if !email.as_str().is_empty() && !vec_contains_string(&self.bcc, &email) {
            self.bcc.push(email);
            self.is_dirty = true;
        }
    }

    /// Remove a recipient from To; an out-of-range index is a no-op.
    pub fn remove_to(&mut self, index: usize)
        ensures
            index < old(self).to@.len() ==> *final(self) == (ComposeState {
                to: final(self).to,
                is_dirty: true,
                ..*old(self)
            }) && final(self).to@ == old(self).to@.remove(index as int),
            index >= old(self).to@.len() ==> *final(self) == *old(self),
    {
        if index < self.to.len() {
            self.to.remove(index);
            self.is_dirty = true;
        }
    }

    /// Remove a recipient from CC; an out-of-range index is a no-op.
    pub fn remove_cc(&mut self, index: usize)
        ensures
            index < old(self).cc@.len() ==> *final(self) == (ComposeState {
                cc: final(self).cc,
                is_dirty: true,
                ..*old(self)
            }) && final(self).cc@ == old(self).cc@.remove(index as int),
            index >= old(self).cc@.len() ==> *final(self) == *old(self),
    {
        if index < self.cc.len() {
            self.cc.remove(index);
            self.is_dirty = true;
        }
    }

    /// Remove a recipient from BCC; an out-of-range index is a no-op.
    pub fn remove_bcc(&mut self, index: usize)
        ensures
            index < old(self).bcc@.len() ==> *final(self) == (ComposeState {
                bcc: final(self).bcc,
                is_dirty: true,
                ..*old(self)
            }) && final(self).bcc@ == old(self).bcc@.remove(index as int),
            index >= old(self).bcc@.len() ==> *final(self) == *old(self),
    {
        if index < self.bcc.len() {
            self.bcc.remove(index);
            self.is_dirty = true;
        }
    }

    /// Whether the email is valid to send: a from account, at least one
    /// recipient anywhere, and no send already in flight.
    pub fn can_send(&self) -> (r: bool)
        ensures
            r == (self.from_account@.len() > 0 && (self.to@.len() > 0 || self.cc@.len() > 0
                || self.bcc@.len() > 0) && !self.is_sending),
    {
        !self.from_account.as_str().is_empty() && (self.to.len() > 0 || self.cc.len() > 0
            || self.bcc.len() > 0) && !self.is_sending
    }
}

impl Default for ComposeState {
    /// A blank compose state, as `new` builds it.
    fn default() -> (r: Self)
        ensures
            r.is_blank(),
    {
        Self::new()
    }
}

/// The number of characters before the first line break, or the whole length
/// when there is none.
pub open spec fn line_break(s: Seq<char>) -> int
    decreases s.len(),
{
    if s.len() == 0 {
        0
    } else if s[0] == '\n' {
        0
    } else {
        1 + line_break(s.drop_first())
    }
}

proof fn lemma_line_break(s: Seq<char>)
    ensures
        0 <= line_break(s) <= s.len(),
        forall|k: int| 0 <= k < line_break(s) ==> s[k] != '\n',
        line_break(s) < s.len() ==> s[line_break(s)] == '\n',
    decreases s.len(),
{
    if s.len() == 0 {
    } else if s[0] == '\n' {
    } else {
        let t = s.drop_first();
        lemma_line_break(t);
        assert forall|k: int| 0 <= k < line_break(s) implies s[k] != '\n' by {
            if k > 0 {
                assert(t[k - 1] == s[k]);
            }
        }
        if line_break(s) < s.len() {
            assert(t[line_break(t)] == s[line_break(s)]);
        }
    }
}

/// A line with a final carriage return removed.
pub open spec fn strip_cr(line: Seq<char>) -> Seq<char> {
    if line.len() > 0 && line.last() == '\r' {
        line.drop_last()
    } else {
        line
    }
}

/// Every line of the body quoted: a `"> "` marker, the line without a
/// carriage return before its line break, and a line break after each line,
/// the last included.
pub open spec fn quoted_lines(s: Seq<char>) -> Seq<char>
    decreases s.len(),
{
    if s.len() == 0 {
        Seq::empty()
    } else {
        let e = line_break(s);
        let line = if e < s.len() {
            strip_cr(s.take(e))
        } else {
            s.take(e)
        };
        let rest = if 0 <= e && e < s.len() {
            s.skip(e + 1)
        } else {
            Seq::<char>::empty()
        };
        "> "@ + line + "\n"@ + quoted_lines(rest)
    }
}

/// The quoted body of a reply: an attribution line, then every line of the
/// original prefixed with a quote marker.
pub open spec fn quoted_body(from: Seq<char>, date: Seq<char>, body: Seq<char>) -> Seq<char> {
    "On "@ + date + ", "@ + from + " wrote:\n"@ + quoted_lines(body)
}

/// Format a quoted body for replies.
#[verifier::loop_isolation(false)]
pub fn format_quoted_body(from: &str, date: &str, body: &str) -> (r: String)
    ensures
        r@ == quoted_body(from@, date@, body@),
{
    let mut out = "On ".to_owned().concat(date).concat(", ").concat(from).concat(" wrote:\n");
    let chars = str_to_chars(body);
    let mut pos: usize = 0;
    proof {
        assert(chars@.skip(0) =~= chars@);
        assert(out@ + quoted_lines(chars@) =~= quoted_body(from@, date@, body@));
    }
    while pos < chars.len()
        invariant
            pos <= chars@.len(),
            out@ + quoted_lines(chars@.skip(pos as int)) == quoted_body(from@, date@, body@),
        decreases chars@.len() - pos,
    {
        let ghost suffix = chars@.skip(pos as int);
        let mut j: usize = pos;
        while j < chars.len() && chars[j] != '\n'
            invariant
                pos <= j <= chars@.len(),
                forall|k: int| pos <= k < j ==> chars@[k] != '\n',
            decreases chars@.len() - j,
        {
            j = j + 1;
        }
        proof {
            lemma_line_break(suffix);
            assert forall|k: int| 0 <= k < j - pos implies suffix[k] != '\n' by {
                assert(suffix[k] == chars@[pos + k]);
            }
            if j < chars@.len() {
                assert(suffix[j - pos] == chars@[j as int]);
            }
            assert(line_break(suffix) == j - pos) by {
                if line_break(suffix) < j - pos {
                    assert(suffix[line_break(suffix)] != '\n');
                } else if line_break(suffix) > j - pos {
                    assert(suffix[j - pos] != '\n');
                }
            }
        }
        let line_end: usize = if j < chars.len() && j > pos && chars[j - 1] == '\r' {
            j - 1
        } else {
            j
        };
        proof {
            let e = line_break(suffix);
            let raw = suffix.take(e);
            assert(raw =~= chars@.subrange(pos as int, j as int));
            if j < chars@.len() {
                assert(raw.len() > 0 ==> raw.last() == chars@[j - 1]);
                assert(strip_cr(raw) =~= chars@.subrange(pos as int, line_end as int));
            } else {
                assert(raw =~= chars@.subrange(pos as int, line_end as int));
            }
        }
        out = out.concat("> ");
        let piece = crate::text::chars_to_string(&chars, pos, line_end);
        out = out.concat(piece.as_str());
        out = out.concat("\n");
        let next: usize = if j < chars.len() {
            j + 1
        } else {
            j
        };
        proof {
            if j < chars@.len() {
                assert(suffix.skip(line_break(suffix) + 1) =~= chars@.skip(next as int));
            } else {
                assert(chars@.skip(next as int) =~= Seq::<char>::empty());
            }
            let e = line_break(suffix);
            let line = if e < suffix.len() {
                strip_cr(suffix.take(e))
            } else {
                suffix.take(e)
            };
            let rest = if 0 <= e && e < suffix.len() {
                suffix.skip(e + 1)
            } else {
                Seq::<char>::empty()
            };
            assert(quoted_lines(suffix) == "> "@ + line + "\n"@ + quoted_lines(rest));
            assert(line =~= chars@.subrange(pos as int, line_end as int));
            assert(rest =~= chars@.skip(next as int));
            assert(out@ + quoted_lines(chars@.skip(next as int)) =~= quoted_body(
                from@,
                date@,
                body@,
            ));
        }
        pos = next;
    }
    proof {
        assert(chars@.skip(pos as int) =~= Seq::<char>::empty());
    }
    out
}

} // verus!
