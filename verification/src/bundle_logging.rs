//! Output a bundle prints: pieces of text are collected until a lone
//! newline arrives, then logged as one line tagged with the bundle hash.

use vstd::prelude::*;
use crate::text::concat_str;

verus! {

/// The concatenation of a sequence of texts.
pub open spec fn concat_all(parts: Seq<Seq<char>>) -> Seq<char>
    decreases parts.len(),
{
    if parts.len() == 0 {
        Seq::empty()
    } else {
        concat_all(parts.drop_last()) + parts.last()
    }
}

/// The prefix of every logged line.
pub open spec fn line_prefix(bundle_hash: Seq<char>) -> Seq<char> {
    "Bundle ["@ + bundle_hash + "]: "@
}

/// Abstract view of the collected output.
pub struct BundleLogView {
    pub parts: Seq<Seq<char>>,
    pub last_message: Option<(Seq<char>, bool)>,
}

/// Output collected from a bundle: the pieces of the current line and the
/// last line logged.
pub struct BundleLog {
    line_parts: Vec<String>,
    last_message: Option<(String, bool)>,
}

impl View for BundleLog {
    type V = BundleLogView;

    closed spec fn view(&self) -> BundleLogView {
        BundleLogView {
            parts: self.line_parts@.map_values(|s: String| s@),
            last_message: match self.last_message {
                Some((s, b)) => Some((s@, b)),
                None => None,
            },
        }
    }
}

/// The effect of writing `message`: a lone newline completes the line
/// (returned with its stream flag and remembered as the last message),
/// anything else is added to the line.
pub open spec fn write_spec(log: BundleLogView, bundle_hash: Seq<char>, message: Seq<char>, is_stdout: bool) -> (BundleLogView, Option<(Seq<char>, bool)>) {
    if message == seq!['\n'] {
        let line = line_prefix(bundle_hash) + concat_all(log.parts);
        (BundleLogView { parts: Seq::empty(), last_message: Some((line, is_stdout)) }, Some((line, is_stdout)))
    } else {
        (BundleLogView { parts: log.parts.push(message), ..log }, None)
    }
}

impl BundleLog {
    /// Nothing collected and nothing logged yet.
    pub fn new() -> (l: BundleLog)
        ensures
            l@.parts.len() == 0,
            l@.last_message is None,
    {
        let l = BundleLog { line_parts: Vec::new(), last_message: None };
        assert(l@.parts =~= Seq::<Seq<char>>::empty());
        l
    }

    /// Takes a piece of output from the bundle. Returns the completed line
    /// and whether it came from standard output, when `message` ends it.
    pub fn write(&mut self, bundle_hash: &str, message: &str, is_stdout: bool) -> (line: Option<(String, bool)>)
        ensures
            ({
                let (l2, out) = write_spec(old(self)@, bundle_hash@, message@, is_stdout);
                &&& final(self)@ == l2
                &&& match out {
                    Some((t, b)) => line matches Some((s, f)) && s@ == t && f == b,
                    None => line is None,
                }
            }),
    {
        let is_newline = message.unicode_len() == 1 && message.get_char(0) == '\n';
        proof {
            if is_newline {
                assert(message@ =~= seq!['\n']);
            } else if message@ == seq!['\n'] {
                assert(message@.len() == 1 && message@[0] == '\n');
            }
        }
        if !is_newline {
            let ghost before = self@;
            self.line_parts.push(message.to_owned());
            proof {
                assert(self@.parts =~= before.parts.push(message@));
            }
            return None;
        }
        let a = concat_str("Bundle [", bundle_hash);
        let mut full = concat_str(a.as_str(), "]: ");
        let ghost parts = self@.parts;
        let mut i: usize = 0;
        while i < self.line_parts.len()
            invariant
                i <= self.line_parts@.len(),
                parts == self.line_parts@.map_values(|s: String| s@),
                full@ == line_prefix(bundle_hash@) + concat_all(parts.take(i as int)),
            decreases self.line_parts@.len() - i,
        {
            full = concat_str(full.as_str(), self.line_parts[i].as_str());
            assert(parts.take(i as int + 1).drop_last() =~= parts.take(i as int));
            i = i + 1;
        }
        assert(parts.take(parts.len() as int) =~= parts);
        self.line_parts = Vec::new();
        let copy = full.clone();
        self.last_message = Some((copy, is_stdout));
        assert(self@.parts =~= Seq::<Seq<char>>::empty());
        Some((full, is_stdout))
    }
}

/// The last line logged, with its stream flag.
pub fn get_last_log_message(log: &BundleLog) -> (m: Option<(String, bool)>)
    ensures
        match log@.last_message {
            Some((t, b)) => m matches Some((s, f)) && s@ == t && f == b,
            None => m is None,
        },
{
    match &log.last_message {
        Some((s, b)) => Some((s.clone(), *b)),
        None => None,
    }
}

/// The effect of a series of writes, and the last line completed by them.
pub open spec fn write_all(log: BundleLogView, bundle_hash: Seq<char>, messages: Seq<Seq<char>>, is_stdout: bool) -> BundleLogView
    decreases messages.len(),
{
    if messages.len() == 0 {
        log
    } else {
        write_spec(write_all(log, bundle_hash, messages.drop_last(), is_stdout), bundle_hash, messages.last(), is_stdout).0
    }
}

/// Pieces written before a lone newline come out as one line, in the order
/// they were written, after the bundle tag.
pub proof fn law_pieces_form_one_line(
    log: BundleLogView,
    bundle_hash: Seq<char>,
    pieces: Seq<Seq<char>>,
    is_stdout: bool,
)
    requires
        forall|i: int| 0 <= i < pieces.len() ==> #[trigger] pieces[i] != seq!['\n'],
    ensures
        write_all(log, bundle_hash, pieces, is_stdout).parts == log.parts + pieces,
        write_spec(write_all(log, bundle_hash, pieces, is_stdout), bundle_hash, seq!['\n'], is_stdout).1
            == Some((line_prefix(bundle_hash) + concat_all(log.parts + pieces), is_stdout)),
    decreases pieces.len(),
{
    if pieces.len() == 0 {
        assert(log.parts + pieces =~= log.parts);
    } else {
        assert forall|i: int| 0 <= i < pieces.drop_last().len() implies #[trigger] pieces.drop_last()[i] != seq!['\n'] by {
            assert(pieces.drop_last()[i] == pieces[i]);
        }
        law_pieces_form_one_line(log, bundle_hash, pieces.drop_last(), is_stdout);
        assert(pieces[pieces.len() - 1] != seq!['\n']);
        assert((log.parts + pieces.drop_last()).push(pieces.last()) =~= log.parts + pieces);
    }
}

} // verus!
