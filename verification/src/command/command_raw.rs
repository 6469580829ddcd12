use vstd::prelude::*;
use vstd::slice::slice_to_vec;
use vstd::utf8::encode_utf8;

use crate::command::Command;
use crate::error::{NetCommsError, NetCommsErrorKind};
use crate::message::MessageKind;
use crate::text::{chars_equal, chars_of, join_parts, remove_chars, string_of, without_chars};
use crate::user::{User, UserUnchecked};

verus! {

/// Holds the parts of an entered command: the entered text cut after every space,
/// each part keeping its trailing space.
#[derive(Debug)]
pub struct CommandRaw {
    pub vec: Vec<String>,
}

/// Whether `parts` is `s` cut after every space: joined they give `s`, no part is
/// empty, every part but the last ends with a space, and no part holds a space
/// before its end.
pub open spec fn is_split_after_spaces(s: Seq<char>, parts: Seq<Seq<char>>) -> bool {
    &&& join_parts(parts) == s
    &&& forall|i: int| 0 <= i < parts.len() ==> #[trigger] parts[i].len() > 0
    &&& forall|i: int| 0 <= i < parts.len() - 1 ==> #[trigger] parts[i].last() == ' '
    &&& forall|i: int, j: int|
        0 <= i < parts.len() && 0 <= j < parts[i].len() - 1 ==> #[trigger] parts[i][j] != ' '
}

/// The text of each part of a command.
pub open spec fn part_texts(parts: Seq<String>) -> Seq<Seq<char>> {
    parts.map_values(|s: String| s@)
}

/// The command word: the first part without its spaces.
pub open spec fn command_word(parts: Seq<Seq<char>>) -> Seq<char> {
    remove_chars(parts[0], seq![' '])
}

pub open spec fn word_register() -> Seq<char> {
    seq!['r', 'e', 'g', 'i', 's', 't', 'e', 'r']
}

pub open spec fn word_login() -> Seq<char> {
    seq!['l', 'o', 'g', 'i', 'n']
}

pub open spec fn word_yes() -> Seq<char> {
    seq!['y']
}

pub open spec fn word_no() -> Seq<char> {
    seq!['n']
}

pub open spec fn word_send() -> Seq<char> {
    seq!['s', 'e', 'n', 'd']
}

/// Characters that are removed from a recipient's name.
pub open spec fn recipient_separators() -> Seq<char> {
    seq!['(', ')', ',', ' ']
}

/// Reads recipients from `parts`, starting at part `i`, with `found` recipients
/// read before. A part that is a single space is skipped. Any other part gives a
/// recipient (its name without parentheses, commas and spaces, when that is not
/// empty); a part that opens a parenthesis without closing it is followed by more
/// recipients, any other part ends the list. The result is the recipients and the
/// index of the first part after the list, or `None` when the parts run out
/// before the list ends.
pub open spec fn scan_recipients(parts: Seq<Seq<char>>, i: int, found: Seq<Seq<char>>) -> Option<
    (Seq<Seq<char>>, int),
>
    decreases parts.len() - i,
{
    if i < 0 || i >= parts.len() {
        None
    } else if parts[i] == seq![' '] {
        scan_recipients(parts, i + 1, found)
    } else {
        let name = remove_chars(parts[i], recipient_separators());
        let found2 = if name.len() > 0 {
            found.push(name)
        } else {
            found
        };
        if parts[i].len() > 0 && parts[i][0] == '(' && !(parts[i].last() == ')') {
            scan_recipients(parts, i + 1, found2)
        } else {
            Some((found2, i + 1))
        }
    }
}

/// Recipients of a send command.
pub open spec fn send_recipients(parts: Seq<Seq<char>>) -> Seq<Seq<char>> {
    scan_recipients(parts, 1, seq![]).unwrap().0
}

/// Text of a send command: all parts after the recipients, joined.
pub open spec fn send_text(parts: Seq<Seq<char>>) -> Seq<char> {
    join_parts(parts.skip(scan_recipients(parts, 1, seq![]).unwrap().1))
}

/// Whether a send command's text names a file: it starts with `|`.
pub open spec fn names_file(text: Seq<char>) -> bool {
    text.len() > 0 && text[0] == '|'
}

/// Path of the file that a send command's text names: the text without `|`.
pub open spec fn file_path(text: Seq<char>) -> Seq<char> {
    remove_chars(text, seq!['|'])
}

/// The inputs on which processing a command is defined: there is a command
/// word; a register or login command has a username and a password; the recipient
/// list of a send command ends.
pub open spec fn process_accepts(parts: Seq<Seq<char>>) -> bool {
    &&& parts.len() > 0
    &&& (command_word(parts) == word_register() || command_word(parts) == word_login())
        ==> parts.len() >= 3
    &&& command_word(parts) == word_send() ==> scan_recipients(parts, 1, seq![]) is Some
}

/// Whether `command` is what a send command with parts `parts`, given by `user`,
/// is processed into. Its author is `user` and its recipients are the command's
/// recipients. When the text names a file, the message is a file message without
/// content whose file name is the path exactly when `is_file` said that the path
/// is a file. Otherwise the message is a text message whose content is the UTF-8
/// encoding of the text, without a file name.
pub open spec fn send_command_matches<F: Fn(&str) -> bool>(
    parts: Seq<Seq<char>>,
    user: (usize, Seq<char>, Seq<char>),
    is_file: F,
    command: Command,
) -> bool {
    command matches Command::Send(kind, who, recipients, content, file_name) && {
        &&& who@ == user
        &&& part_texts(recipients@) == send_recipients(parts)
        &&& if names_file(send_text(parts)) {
            &&& kind == MessageKind::File
            &&& content@ == Seq::<u8>::empty()
            &&& exists|p: &str|
                p@ == file_path(send_text(parts)) && #[trigger] is_file.ensures(
                    (p,),
                    file_name is Some,
                )
            &&& file_name matches Some(name) ==> name@ == file_path(send_text(parts))
        } else {
            &&& kind == MessageKind::Text
            &&& content@ == encode_utf8(send_text(parts))
            &&& file_name is None
        }
    }
}

/// The error of a command that is missing its parts.
fn invalid_command() -> (e: NetCommsError)
    ensures
        e.kind is InvalidCommand,
{
    NetCommsError::new(
        NetCommsErrorKind::InvalidCommand,
        Some(String::from_str("The command is missing its parts.")),
    )
}

impl CommandRaw {
    /// Cuts an entered line after every space; every part keeps its trailing space.
    pub fn from_input(input: &str) -> (cmd: CommandRaw)
        ensures
            is_split_after_spaces(input@, part_texts(cmd.vec@)),
    {
        let chars = chars_of(input);
        let mut parts: Vec<String> = Vec::new();
        let mut current: Vec<char> = Vec::new();
        let mut i: usize = 0;
        while i < chars.len()
            invariant
                i <= chars@.len(),
                chars@ == input@,
                join_parts(part_texts(parts@)) + current@ == chars@.take(i as int),
                forall|k: int| 0 <= k < parts@.len() ==> #[trigger] parts@[k]@.len() > 0,
                forall|k: int| 0 <= k < parts@.len() ==> #[trigger] parts@[k]@.last() == ' ',
                forall|k: int, j: int|
                    0 <= k < parts@.len() && 0 <= j < parts@[k]@.len() - 1 ==> #[trigger] parts@[k]@[j]
                        != ' ',
                forall|j: int| 0 <= j < current@.len() ==> #[trigger] current@[j] != ' ',
            decreases chars@.len() - i,
        {
            let c = chars[i];
            current.push(c);
            proof {
                assert(chars@.take(i + 1) =~= chars@.take(i as int).push(c));
            }
            if c == ' ' {
                let ghost old_parts = parts@;
                let piece = string_of(current.as_slice());
                parts.push(piece);
                proof {
                    assert(part_texts(parts@).drop_last() =~= part_texts(old_parts));
                    assert(join_parts(part_texts(parts@)) =~= join_parts(part_texts(old_parts))
                        + current@);
                }
                current = Vec::new();
                assert(join_parts(part_texts(parts@)) + current@ =~= chars@.take(i + 1));
            } else {
                assert(join_parts(part_texts(parts@)) + current@ =~= chars@.take(i + 1));
            }
            i = i + 1;
        }
        if current.len() > 0 {
            let ghost old_parts = parts@;
            let piece = string_of(current.as_slice());
            parts.push(piece);
            proof {
                assert(part_texts(parts@).drop_last() =~= part_texts(old_parts));
            }
        }
        proof {
            assert(chars@.take(chars@.len() as int) =~= chars@);
            assert(join_parts(part_texts(parts@)) =~= input@);
        }
        CommandRaw { vec: parts }
    }

    /// Processes the command and consumes it.
    ///
    /// The command word is the first part without spaces: `register` and `login`
    /// take a username and a password from the next two parts (each keeping its
    /// trailing space), `y` and `n` answer, `send` sends a message, and any other
    /// word is an unknown command. `user` is the user that gave the command.
    ///
    /// A send command's text that starts with `|` names a file; `is_file` is
    /// asked whether its path is a file, and only then is the path the file name.
    ///
    /// # Errors
    /// `InvalidCommand` if the command is missing its parts: it is empty, a
    /// register or login command lacks a username or a password, or the recipient
    /// list of a send command does not end.
    pub fn process<F: Fn(&str) -> bool>(self, user: &User, is_file: F) -> (r: Result<
        Command,
        NetCommsError,
    >)
        requires
            forall|p: &str| is_file.requires((p,)),
        ensures
            r is Ok <==> process_accepts(part_texts(self.vec@)),
            !process_accepts(part_texts(self.vec@)) ==> (r matches Err(e) && e.kind is InvalidCommand),
            process_accepts(part_texts(self.vec@)) && command_word(part_texts(self.vec@)) == word_register() ==> (r->Ok_0 matches Command::Register(
                u,
                who,
            ) && u.username == self.vec@[1] && u.password == self.vec@[2] && who@ == user@),
            process_accepts(part_texts(self.vec@)) && command_word(part_texts(self.vec@)) == word_login() ==> (r->Ok_0 matches Command::Login(
                u,
                who,
            ) && u.username == self.vec@[1] && u.password == self.vec@[2] && who@ == user@),
            process_accepts(part_texts(self.vec@)) && command_word(part_texts(self.vec@)) == word_yes() ==> (r->Ok_0 matches Command::Yes(who)
                && who@ == user@),
            process_accepts(part_texts(self.vec@)) && command_word(part_texts(self.vec@)) == word_no() ==> (r->Ok_0 matches Command::No(who)
                && who@ == user@),
            process_accepts(part_texts(self.vec@)) && command_word(part_texts(self.vec@)) == word_send() ==> send_command_matches(
                part_texts(self.vec@),
                user@,
                is_file,
                r->Ok_0,
            ),
            process_accepts(part_texts(self.vec@)) && command_word(part_texts(self.vec@)) != word_register() && command_word(
                part_texts(self.vec@),
            ) != word_login() && command_word(part_texts(self.vec@)) != word_yes()
                && command_word(part_texts(self.vec@)) != word_no() && command_word(
                part_texts(self.vec@),
            ) != word_send() ==> r->Ok_0 is Unknown,
    {
        if !self.can_process() {
            return Err(invalid_command());
        }
        let first = chars_of(self.vec[0].as_str());
        let word = without_chars(first.as_slice(), &[' ']);
        proof {
            assert([' ']@ =~= seq![' ']);
        }
        if chars_equal(word.as_slice(), &['r', 'e', 'g', 'i', 's', 't', 'e', 'r']) {
            proof {
                assert(['r', 'e', 'g', 'i', 's', 't', 'e', 'r']@ =~= word_register());
            }
            let unchecked = match CommandRaw::check_register(self) {
                Ok(u) => u,
                Err(e) => return Err(e),
            };
            return Ok(Command::Register(unchecked, user.duplicate()));
        }
        proof {
            assert(['r', 'e', 'g', 'i', 's', 't', 'e', 'r']@ =~= word_register());
        }
        if chars_equal(word.as_slice(), &['l', 'o', 'g', 'i', 'n']) {
            proof {
                assert(['l', 'o', 'g', 'i', 'n']@ =~= word_login());
            }
            let unchecked = match CommandRaw::check_login(self) {
                Ok(u) => u,
                Err(e) => return Err(e),
            };
            return Ok(Command::Login(unchecked, user.duplicate()));
        }
        proof {
            assert(['l', 'o', 'g', 'i', 'n']@ =~= word_login());
        }
        if chars_equal(word.as_slice(), &['y']) {
            proof {
                assert(['y']@ =~= word_yes());
            }
            return CommandRaw::check_yes(self, user);
        }
        proof {
            assert(['y']@ =~= word_yes());
        }
        if chars_equal(word.as_slice(), &['n']) {
            proof {
                assert(['n']@ =~= word_no());
            }
            return CommandRaw::check_no(self, user);
        }
        proof {
            assert(['n']@ =~= word_no());
        }
        if chars_equal(word.as_slice(), &['s', 'e', 'n', 'd']) {
            proof {
                assert(['s', 'e', 'n', 'd']@ =~= word_send());
            }
            return CommandRaw::check_send(self, user, is_file);
        }
        proof {
            assert(['s', 'e', 'n', 'd']@ =~= word_send());
        }
        Ok(Command::Unknown)
    }

    /// Username and password of a register command.
    fn check_register(cmd: CommandRaw) -> (r: Result<UserUnchecked, NetCommsError>)
        requires
            cmd.vec@.len() >= 3,
        ensures
            r matches Ok(u) && u.username == cmd.vec@[1] && u.password == cmd.vec@[2],
    {
        Ok(UserUnchecked { username: cmd.vec[1].clone(), password: cmd.vec[2].clone() })
    }

    /// Username and password of a login command.
    fn check_login(cmd: CommandRaw) -> (r: Result<UserUnchecked, NetCommsError>)
        requires
            cmd.vec@.len() >= 3,
        ensures
            r matches Ok(u) && u.username == cmd.vec@[1] && u.password == cmd.vec@[2],
    {
        Ok(UserUnchecked { username: cmd.vec[1].clone(), password: cmd.vec[2].clone() })
    }

    /// Agreement given by `user`.
    fn check_yes(_cmd: CommandRaw, user: &User) -> (r: Result<Command, NetCommsError>)
        ensures
            r matches Ok(Command::Yes(who)) && who@ == user@,
    {
        Ok(Command::Yes(user.duplicate()))
    }

    /// Refusal given by `user`.
    fn check_no(_cmd: CommandRaw, user: &User) -> (r: Result<Command, NetCommsError>)
        ensures
            r matches Ok(Command::No(who)) && who@ == user@,
    {
        Ok(Command::No(user.duplicate()))
    }

    /// Reads the recipients and the text of a send command; `InvalidCommand` if
    /// its recipient list does not end.
    fn check_send<F: Fn(&str) -> bool>(cmd: CommandRaw, user: &User, is_file: F) -> (r: Result<
        Command,
        NetCommsError,
    >)
        requires
            forall|p: &str| is_file.requires((p,)),
        ensures
            scan_recipients(part_texts(cmd.vec@), 1, seq![]) is None ==> (r matches Err(e)
                && e.kind is InvalidCommand),
            scan_recipients(part_texts(cmd.vec@), 1, seq![]) is Some ==> (r is Ok
                && send_command_matches(part_texts(cmd.vec@), user@, is_file, r->Ok_0)),
    {
        if !recipient_list_ends(&cmd.vec) {
            return Err(invalid_command());
        }
        let ghost parts = part_texts(cmd.vec@);
        let ghost target = scan_recipients(parts, 1, seq![]);
        let mut recipients: Vec<String> = Vec::new();
        let mut i: usize = 1;
        assert(part_texts(recipients@) =~= seq![]);
        let n = cmd.vec.len();
        loop
            invariant_except_break
                1 <= i,
                n == cmd.vec@.len(),
                cmd.vec@.len() == parts.len(),
                parts == part_texts(cmd.vec@),
                scan_recipients(parts, i as int, part_texts(recipients@)) == target,
                target is Some,
            ensures
                target == Some((part_texts(recipients@), i as int)),
                1 <= i <= cmd.vec@.len(),
            decreases cmd.vec@.len() - i,
        {
            assert(i < cmd.vec@.len());
            let part = chars_of(cmd.vec[i].as_str());
            assert(part@ == parts[i as int]);
            if chars_equal(part.as_slice(), &[' ']) {
                assert([' ']@ =~= seq![' ']);
                i = i + 1;
                continue;
            }
            assert([' ']@ =~= seq![' ']);
            let name = without_chars(part.as_slice(), &['(', ')', ',', ' ']);
            assert(['(', ')', ',', ' ']@ =~= recipient_separators());
            let ghost before = part_texts(recipients@);
            if name.len() > 0 {
                recipients.push(string_of(name.as_slice()));
                assert(part_texts(recipients@) =~= before.push(name@));
            }
            let opens = part.len() > 0 && part[0] == '(';
            let closes = part.len() > 0 && part[part.len() - 1] == ')';
            i = i + 1;
            if !(opens && !closes) {
                break;
            }
        }
        let mut text: Vec<char> = Vec::new();
        let ghost start = i as int;
        let mut j: usize = i;
        while j < cmd.vec.len()
            invariant
                1 <= start <= j <= cmd.vec@.len(),
                parts == part_texts(cmd.vec@),
                parts.len() == cmd.vec@.len(),
                text@ == join_parts(parts.subrange(start, j as int)),
            decreases cmd.vec@.len() - j,
        {
            let part = chars_of(cmd.vec[j].as_str());
            let mut k: usize = 0;
            let ghost text_before = text@;
            while k < part.len()
                invariant
                    k <= part@.len(),
                    text@ == text_before + part@.take(k as int),
                decreases part@.len() - k,
            {
                text.push(part[k]);
                assert(part@.take(k + 1) =~= part@.take(k as int).push(part@[k as int]));
                k = k + 1;
            }
            proof {
                assert(part@.take(part@.len() as int) =~= part@);
                assert(parts.subrange(start, j + 1).drop_last() =~= parts.subrange(start, j as int));
                assert(parts.subrange(start, j + 1).last() == parts[j as int]);
            }
            j = j + 1;
        }
        proof {
            assert(parts.subrange(start, parts.len() as int) =~= parts.skip(start));
        }
        if text.len() > 0 && text[0] == '|' {
            let path = without_chars(text.as_slice(), &['|']);
            assert(['|']@ =~= seq!['|']);
            let path = string_of(path.as_slice());
            let exists = is_file(path.as_str());
            let file_name = if exists {
                Some(path)
            } else {
                None
            };
            Ok(Command::Send(MessageKind::File, user.duplicate(), recipients, Vec::new(), file_name))
        } else {
            let text = string_of(text.as_slice());
            let content = slice_to_vec(text.as_str().as_bytes());
            Ok(Command::Send(MessageKind::Text, user.duplicate(), recipients, content, None))
        }
    }
}


/// Whether reading recipients ends the same way whatever was read before.
proof fn lemma_scan_ends_whatever_found(
    parts: Seq<Seq<char>>,
    i: int,
    found: Seq<Seq<char>>,
    other: Seq<Seq<char>>,
)
    ensures
        scan_recipients(parts, i, found) is Some <==> scan_recipients(parts, i, other) is Some,
    decreases parts.len() - i,
{
    if 0 <= i < parts.len() {
        let name = remove_chars(parts[i], recipient_separators());
        if parts[i] == seq![' '] {
            lemma_scan_ends_whatever_found(parts, i + 1, found, other);
        } else if parts[i].len() > 0 && parts[i][0] == '(' && !(parts[i].last() == ')') {
            let f2 = if name.len() > 0 {
                found.push(name)
            } else {
                found
            };
            let o2 = if name.len() > 0 {
                other.push(name)
            } else {
                other
            };
            lemma_scan_ends_whatever_found(parts, i + 1, f2, o2);
        }
    }
}

/// Whether the recipient list of a send command with parts `parts` ends before
/// the parts run out.
fn recipient_list_ends(parts: &Vec<String>) -> (r: bool)
    ensures
        r == scan_recipients(part_texts(parts@), 1, seq![]) is Some,
{
    let ghost p = part_texts(parts@);
    let mut i: usize = 1;
    while i < parts.len()
        invariant
            1 <= i,
            p == part_texts(parts@),
            p.len() == parts@.len(),
            (scan_recipients(p, 1, seq![]) is Some) == (scan_recipients(p, i as int, seq![]) is Some),
        decreases parts@.len() - i,
    {
        let part = chars_of(parts[i].as_str());
        assert(part@ == p[i as int]);
        assert([' ']@ =~= seq![' ']);
        if chars_equal(part.as_slice(), &[' ']) {
            i = i + 1;
        } else {
            let opens = part.len() > 0 && part[0] == '(';
            let closes = part.len() > 0 && part[part.len() - 1] == ')';
            if opens && !closes {
                proof {
                    let name = remove_chars(p[i as int], recipient_separators());
                    let f2 = if name.len() > 0 {
                        seq![].push(name)
                    } else {
                        seq![]
                    };
                    lemma_scan_ends_whatever_found(p, i + 1, f2, seq![]);
                }
                i = i + 1;
            } else {
                return true;
            }
        }
    }
    false
}

impl CommandRaw {
    /// Whether the command can be processed: it has a command word, a register or
    /// login command has a username and a password, and the recipient list of a
    /// send command ends.
    pub fn can_process(&self) -> (r: bool)
        ensures
            r == process_accepts(part_texts(self.vec@)),
    {
        if self.vec.len() == 0 {
            return false;
        }
        let first = chars_of(self.vec[0].as_str());
        let word = without_chars(first.as_slice(), &[' ']);
        proof {
            assert([' ']@ =~= seq![' ']);
            assert(['r', 'e', 'g', 'i', 's', 't', 'e', 'r']@ =~= word_register());
            assert(['l', 'o', 'g', 'i', 'n']@ =~= word_login());
            assert(['s', 'e', 'n', 'd']@ =~= word_send());
        }
        if chars_equal(word.as_slice(), &['r', 'e', 'g', 'i', 's', 't', 'e', 'r']) || chars_equal(
            word.as_slice(),
            &['l', 'o', 'g', 'i', 'n'],
        ) {
            self.vec.len() >= 3
        } else if chars_equal(word.as_slice(), &['s', 'e', 'n', 'd']) {
            recipient_list_ends(&self.vec)
        } else {
            true
        }
    }
}


/// Removing the characters of `drop` keeps every other character of `s`, in
/// order.
proof fn lemma_remove_chars_keeps_others(s: Seq<char>, drop: Seq<char>, keep: spec_fn(char) -> bool)
    requires
        forall|c: char| #[trigger] keep(c) <==> !drop.contains(c),
    ensures
        remove_chars(s, drop) == s.filter(keep),
    decreases s.len(),
{
    reveal(Seq::filter);
    if s.len() > 0 {
        lemma_remove_chars_keeps_others(s.drop_last(), drop, keep);
        if keep(s.last()) {
            assert(remove_chars(s, drop) =~= s.drop_last().filter(keep).push(s.last()));
        } else {
            assert(remove_chars(s, drop) =~= s.drop_last().filter(keep));
        }
    }
}

/// Whether `c` is one of the characters that are dropped from a recipient's name:
/// `(`, `)`, `,` and the space.
pub open spec fn separates_recipients(c: char) -> bool {
    c == '(' || c == ')' || c == ',' || c == ' '
}

/// A recipient's name is its part of the command with exactly `(`, `)`, `,` and
/// spaces removed: every other character, such as `.` or `@`, is kept in order.
pub proof fn law_recipient_name_keeps_other_characters(part: Seq<char>)
    ensures
        remove_chars(part, recipient_separators()) == part.filter(|c: char| !separates_recipients(c)),
{
    let d = recipient_separators();
    let keep = |c: char| !separates_recipients(c);
    assert forall|c: char| #[trigger] keep(c) <==> !d.contains(c) by {
        if separates_recipients(c) {
            if c == '(' {
                assert(d[0] == c);
            } else if c == ')' {
                assert(d[1] == c);
            } else if c == ',' {
                assert(d[2] == c);
            } else {
                assert(d[3] == c);
            }
        } else {
            assert forall|i: int| 0 <= i < d.len() implies d[i] != c by {}
        }
    }
    lemma_remove_chars_keeps_others(part, d, keep);
}

/// The path that a send command's text names is the text with exactly its `|`
/// characters removed: every other character, spaces included, is kept in order.
pub proof fn law_file_path_keeps_other_characters(text: Seq<char>)
    ensures
        file_path(text) == text.filter(|c: char| c != '|'),
{
    let d = seq!['|'];
    let keep = |c: char| c != '|';
    assert forall|c: char| #[trigger] keep(c) <==> !d.contains(c) by {
        if c == '|' {
            assert(d[0] == c);
        } else {
            assert forall|i: int| 0 <= i < d.len() implies d[i] != c by {}
        }
    }
    lemma_remove_chars_keeps_others(text, d, keep);
}

} // verus!
