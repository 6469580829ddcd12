use vstd::prelude::*;
use vstd::slice::slice_to_vec;
use vstd::utf8::encode_utf8;

use crate::command::{part_texts, word_login, word_no, word_register, word_send, word_yes};
use crate::components::user::UserUnchecked;
use crate::message::MessageKind;
use crate::text::{chars_equal, chars_of, join_parts, string_of};

verus! {

/// A command of the components protocol.
#[derive(Debug)]
pub enum Command {
    Register(UserUnchecked),
    Login(UserUnchecked),
    Yes,
    No,
    /// Kind of the message, recipients and content.
    Send(MessageKind, Vec<String>, Vec<u8>),
    Unknown,
}

/// Error of a command.
#[derive(Debug)]
pub struct CommandError;

/// Error of the parts of a command.
#[derive(Debug)]
pub struct CommandRawError;

/// The words of an entered command.
#[derive(Debug)]
pub struct CommandRaw {
    vec: Vec<String>,
}

/// Whether `c` is white space (has Unicode's White_Space property).
pub open spec fn is_white_space(c: char) -> bool {
    ||| '\u{9}' <= c <= '\u{d}'
    ||| c == ' '
    ||| c == '\u{85}'
    ||| c == '\u{a0}'
    ||| c == '\u{1680}'
    ||| '\u{2000}' <= c <= '\u{200a}'
    ||| c == '\u{2028}'
    ||| c == '\u{2029}'
    ||| c == '\u{202f}'
    ||| c == '\u{205f}'
    ||| c == '\u{3000}'
}

/// Whether `c` is white space (has Unicode's White_Space property).
pub fn white_space(c: char) -> (r: bool)
    ensures
        r == is_white_space(c),
{
    ('\u{9}' <= c && c <= '\u{d}') || c == ' ' || c == '\u{85}' || c == '\u{a0}' || c == '\u{1680}'
        || ('\u{2000}' <= c && c <= '\u{200a}') || c == '\u{2028}' || c == '\u{2029}' || c
        == '\u{202f}' || c == '\u{205f}' || c == '\u{3000}'
}

/// The words of `s`: its longest runs of characters that are not white space, in
/// order.
pub open spec fn words_of(s: Seq<char>) -> Seq<Seq<char>>
    decreases s.len(),
{
    if s.len() == 0 {
        seq![]
    } else {
        let c = s.last();
        let before = words_of(s.drop_last());
        if is_white_space(c) {
            before
        } else if s.len() >= 2 && !is_white_space(s[s.len() - 2]) {
            before.drop_last().push(before.last().push(c))
        } else {
            before.push(seq![c])
        }
    }
}

/// The white space that separates words is exactly the characters with Unicode's
/// White_Space property, given here by their code points: tab to carriage return,
/// space, next line, no-break space, Ogham space mark, the spaces from en quad to
/// hair space, the line and paragraph separators, narrow no-break space, medium
/// mathematical space and ideographic space.
pub proof fn law_white_space_code_points(c: char)
    ensures
        is_white_space(c) <==> {
            ||| 0x9 <= c as u32 <= 0xd
            ||| c as u32 == 0x20
            ||| c as u32 == 0x85
            ||| c as u32 == 0xa0
            ||| c as u32 == 0x1680
            ||| 0x2000 <= c as u32 <= 0x200a
            ||| c as u32 == 0x2028
            ||| c as u32 == 0x2029
            ||| c as u32 == 0x202f
            ||| c as u32 == 0x205f
            ||| c as u32 == 0x3000
        },
{
}

/// No visible ASCII character (letters, digits and punctuation such as `.`, `@`
/// or `-`) separates words.
pub proof fn law_visible_ascii_is_not_white_space(c: char)
    requires
        '!' <= c <= '~',
    ensures
        !is_white_space(c),
{
}

/// `s` without its white space characters, the others kept in order.
pub open spec fn without_white_space(s: Seq<char>) -> Seq<char> {
    s.filter(|c: char| !is_white_space(c))
}

/// The words of `s` are non-empty, hold no white space, and joined in order give
/// `s` with its white space removed: every other character of `s` is kept, in
/// its word, in order.
pub proof fn law_words_keep_every_other_character(s: Seq<char>)
    ensures
        join_parts(words_of(s)) == without_white_space(s),
        forall|i: int| 0 <= i < words_of(s).len() ==> #[trigger] words_of(s)[i].len() > 0,
        forall|i: int, j: int|
            0 <= i < words_of(s).len() && 0 <= j < words_of(s)[i].len() ==> !is_white_space(
                #[trigger] words_of(s)[i][j],
            ),
        s.len() > 0 && !is_white_space(s.last()) ==> words_of(s).len() > 0,
    decreases s.len(),
{
    reveal(Seq::filter);
    if s.len() > 0 {
        let c = s.last();
        let rest = s.drop_last();
        let before = words_of(rest);
        law_words_keep_every_other_character(rest);
        let w = words_of(s);
        assert(s.drop_last() == rest);
        if is_white_space(c) {
            assert(without_white_space(s) == without_white_space(rest));
        } else if s.len() >= 2 && !is_white_space(s[s.len() - 2]) {
            assert(rest.last() == s[s.len() - 2]);
            let last = before.last();
            assert(before.drop_last().push(last) =~= before);
            assert(w.drop_last() =~= before.drop_last());
            assert(join_parts(w) == join_parts(before.drop_last()) + last.push(c));
            assert(join_parts(before) == join_parts(before.drop_last()) + last);
            assert(join_parts(w) =~= join_parts(before).push(c));
            assert(without_white_space(s) == without_white_space(rest).push(c));
            assert forall|i: int| 0 <= i < w.len() implies #[trigger] w[i].len() > 0 by {
                if i < w.len() - 1 {
                    assert(w[i] == before[i]);
                }
            }
            assert forall|i: int, j: int| 0 <= i < w.len() && 0 <= j < w[i].len() implies !is_white_space(
                #[trigger] w[i][j],
            ) by {
                if i < w.len() - 1 {
                    assert(w[i] == before[i]);
                } else {
                    assert(w[i] == last.push(c));
                    if j < last.len() {
                        assert(w[i][j] == before[before.len() - 1][j]);
                    }
                }
            }
        } else {
            assert(w.drop_last() =~= before);
            assert(join_parts(w) =~= join_parts(before) + seq![c]);
            assert(without_white_space(s) == without_white_space(rest).push(c));
            assert forall|i: int| 0 <= i < w.len() implies #[trigger] w[i].len() > 0 by {
                if i < w.len() - 1 {
                    assert(w[i] == before[i]);
                }
            }
            assert forall|i: int, j: int| 0 <= i < w.len() && 0 <= j < w[i].len() implies !is_white_space(
                #[trigger] w[i][j],
            ) by {
                if i < w.len() - 1 {
                    assert(w[i] == before[i]);
                }
            }
        }
    }
}

/// A run of characters none of which is white space is a single word.
pub proof fn law_run_without_white_space_is_one_word(s: Seq<char>)
    requires
        s.len() > 0,
        forall|i: int| 0 <= i < s.len() ==> !is_white_space(#[trigger] s[i]),
    ensures
        words_of(s) == seq![s],
    decreases s.len(),
{
    if s.len() > 1 {
        let rest = s.drop_last();
        assert forall|i: int| 0 <= i < rest.len() implies !is_white_space(#[trigger] rest[i]) by {
            assert(rest[i] == s[i]);
        }
        law_run_without_white_space_is_one_word(rest);
        assert(s[s.len() - 2] == rest.last());
        assert(!is_white_space(s.last()));
        assert(rest.push(s.last()) =~= s);
        assert(words_of(s) == words_of(rest).drop_last().push(words_of(rest).last().push(s.last())));
        assert(words_of(rest).drop_last() =~= Seq::<Seq<char>>::empty());
        assert(words_of(s) =~= seq![s]);
    } else {
        assert(!is_white_space(s.last()));
        assert(s.drop_last() =~= Seq::<char>::empty());
        assert(words_of(s.drop_last()) == Seq::<Seq<char>>::empty());
        assert(seq![s.last()] =~= s);
        assert(words_of(s) =~= seq![s]);
    }
}

/// A white space character splits the text around it: the words of the text are
/// the words before it followed by the words after it.
pub proof fn law_white_space_separates_words(a: Seq<char>, w: char, b: Seq<char>)
    requires
        is_white_space(w),
    ensures
        words_of(a.push(w) + b) == words_of(a) + words_of(b),
    decreases b.len(),
{
    let t = a.push(w) + b;
    if b.len() == 0 {
        assert(t =~= a.push(w));
        assert(t.drop_last() =~= a);
        assert(words_of(a) + words_of(b) =~= words_of(a));
    } else {
        let c = b.last();
        let b0 = b.drop_last();
        law_white_space_separates_words(a, w, b0);
        assert(t.drop_last() =~= a.push(w) + b0);
        assert(t.last() == c);
        let wa = words_of(a);
        let wb = words_of(b0);
        if is_white_space(c) {
        } else if t.len() >= 2 && !is_white_space(t[t.len() - 2]) {
            assert(b.len() >= 2) by {
                if b.len() == 1 {
                    assert(t[t.len() - 2] == w);
                }
            }
            assert(t[t.len() - 2] == b[b.len() - 2]);
            assert(b0.last() == b[b.len() - 2]);
            law_words_keep_every_other_character(b0);
            assert(wb.len() > 0);
            assert((wa + wb).drop_last() =~= wa + wb.drop_last());
            assert((wa + wb).last() == wb.last());
            assert(words_of(t) =~= wa + wb.drop_last().push(wb.last().push(c)));
            assert(words_of(b) == wb.drop_last().push(wb.last().push(c)));
            assert(words_of(t) =~= wa + words_of(b));
        } else {
            if b.len() >= 2 {
                assert(t[t.len() - 2] == b[b.len() - 2]);
            }
            assert(words_of(t) =~= (wa + wb).push(seq![c]));
            assert(words_of(b) == wb.push(seq![c]));
            assert(words_of(t) =~= wa + words_of(b));
        }
    }
}

/// The inputs on which processing a command is defined: there is a command word,
/// and a register, login or send command has two more words.
pub open spec fn process_cmd_accepts(words: Seq<Seq<char>>) -> bool {
    &&& words.len() > 0
    &&& (words[0] == word_register() || words[0] == word_login() || words[0] == word_send())
        ==> words.len() >= 3
}

impl CommandRaw {
    /// The command word.
    pub closed spec fn spec_words(&self) -> Seq<Seq<char>> {
        part_texts(self.vec@)
    }

    /// Splits an entered line into its words.
    pub fn from_input(input: &str) -> (cmd: CommandRaw)
        ensures
            cmd.spec_words() == words_of(input@),
    {
        let chars = chars_of(input);
        let mut words: Vec<String> = Vec::new();
        let mut current: Vec<char> = Vec::new();
        let mut i: usize = 0;
        while i < chars.len()
            invariant
                i <= chars@.len(),
                chars@ == input@,
                current@.len() > 0 ==> i > 0 && !is_white_space(chars@[i - 1]),
                i > 0 && !is_white_space(chars@[i - 1]) ==> current@.len() > 0,
                current@.len() > 0 ==> words_of(chars@.take(i as int)) == part_texts(words@).push(
                    current@,
                ),
                current@.len() == 0 ==> words_of(chars@.take(i as int)) == part_texts(words@),
            decreases chars@.len() - i,
        {
            let c = chars[i];
            let ghost prefix = chars@.take(i + 1);
            proof {
                assert(prefix.drop_last() =~= chars@.take(i as int));
                assert(prefix.last() == c);
                if i > 0 {
                    assert(prefix[prefix.len() - 2] == chars@[i - 1]);
                }
            }
            if white_space(c) {
                if current.len() > 0 {
                    let ghost old_words = part_texts(words@);
                    words.push(string_of(current.as_slice()));
                    assert(part_texts(words@) =~= old_words.push(current@));
                    current = Vec::new();
                }
            } else {
                let ghost old_current = current@;
                current.push(c);
                proof {
                    if old_current.len() > 0 {
                        let before = words_of(chars@.take(i as int));
                        assert(before == part_texts(words@).push(old_current));
                        assert(before.drop_last() =~= part_texts(words@));
                        assert(words_of(prefix) == before.drop_last().push(before.last().push(c)));
                        assert(part_texts(words@).push(current@) =~= before.drop_last().push(
                            before.last().push(c),
                        ));
                    } else {
                        assert(current@ =~= seq![c]);
                        assert(words_of(prefix) == words_of(chars@.take(i as int)).push(seq![c]));
                    }
                }
            }
            i = i + 1;
        }
        if current.len() > 0 {
            let ghost old_words = part_texts(words@);
            words.push(string_of(current.as_slice()));
            assert(part_texts(words@) =~= old_words.push(current@));
        }
        assert(chars@.take(chars@.len() as int) =~= chars@);
        CommandRaw { vec: words }
    }

    /// Whether the command can be processed: it has a command word, and a register,
    /// login or send command has two more words.
    pub fn can_process_cmd(&self) -> (r: bool)
        ensures
            r == process_cmd_accepts(self.spec_words()),
    {
        if self.vec.len() == 0 {
            return false;
        }
        let word = chars_of(self.vec[0].as_str());
        proof {
            assert(word@ == self.spec_words()[0]);
            assert(['r', 'e', 'g', 'i', 's', 't', 'e', 'r']@ =~= word_register());
            assert(['l', 'o', 'g', 'i', 'n']@ =~= word_login());
            assert(['s', 'e', 'n', 'd']@ =~= word_send());
        }
        let needs_two = chars_equal(word.as_slice(), &['r', 'e', 'g', 'i', 's', 't', 'e', 'r'])
            || chars_equal(word.as_slice(), &['l', 'o', 'g', 'i', 'n']) || chars_equal(
            word.as_slice(),
            &['s', 'e', 'n', 'd'],
        );
        !needs_two || self.vec.len() >= 3
    }

    /// Processes the command and consumes it. The first word decides: `register`
    /// and `login` take a username and a password from the next two words, `y`
    /// and `n` answer, `send` sends the third word as a text message to the
    /// recipient that the second word names, and any other word is an unknown
    /// command. A command without words, or a register, login or send command
    /// without two more words, is a `CommandError`.
    pub fn process_cmd(self) -> (r: Result<Command, CommandError>)
        ensures
            r is Ok <==> process_cmd_accepts(self.spec_words()),
            process_cmd_accepts(self.spec_words()) && self.spec_words()[0] == word_register() ==> (r->Ok_0 matches Command::Register(u)
                && u.username@ == self.spec_words()[1] && u.password@ == self.spec_words()[2]),
            process_cmd_accepts(self.spec_words()) && self.spec_words()[0] == word_login() ==> (r->Ok_0 matches Command::Login(u)
                && u.username@ == self.spec_words()[1] && u.password@ == self.spec_words()[2]),
            process_cmd_accepts(self.spec_words()) && self.spec_words()[0] == word_yes() ==> r->Ok_0 is Yes,
            process_cmd_accepts(self.spec_words()) && self.spec_words()[0] == word_no() ==> r->Ok_0 is No,
            process_cmd_accepts(self.spec_words()) && self.spec_words()[0] == word_send() ==> (r->Ok_0 matches Command::Send(
                kind,
                recipients,
                content,
            ) && kind == MessageKind::Text && part_texts(recipients@) == seq![self.spec_words()[1]]
                && content@ == encode_utf8(self.spec_words()[2])),
            process_cmd_accepts(self.spec_words()) && self.spec_words()[0] != word_register() && self.spec_words()[0] != word_login()
                && self.spec_words()[0] != word_yes() && self.spec_words()[0] != word_no()
                && self.spec_words()[0] != word_send() ==> r->Ok_0 is Unknown,
    {
        if !self.can_process_cmd() {
            return Err(CommandError);
        }
        let word = chars_of(self.vec[0].as_str());
        proof {
            assert(word@ == self.spec_words()[0]);
            assert(['r', 'e', 'g', 'i', 's', 't', 'e', 'r']@ =~= word_register());
            assert(['l', 'o', 'g', 'i', 'n']@ =~= word_login());
            assert(['y']@ =~= word_yes());
            assert(['n']@ =~= word_no());
            assert(['s', 'e', 'n', 'd']@ =~= word_send());
        }
        if chars_equal(word.as_slice(), &['r', 'e', 'g', 'i', 's', 't', 'e', 'r']) {
            match CommandRaw::check_register(self) {
                Ok(user) => Ok(Command::Register(user)),
                Err(_) => Err(CommandError),
            }
        } else if chars_equal(word.as_slice(), &['l', 'o', 'g', 'i', 'n']) {
            match CommandRaw::check_login(self) {
                Ok(user) => Ok(Command::Login(user)),
                Err(_) => Err(CommandError),
            }
        } else if chars_equal(word.as_slice(), &['y']) {
            match CommandRaw::check_yes(self) {
                Ok(_) => Ok(Command::Yes),
                Err(_) => Err(CommandError),
            }
        } else if chars_equal(word.as_slice(), &['n']) {
            match CommandRaw::check_no(self) {
                Ok(_) => Ok(Command::No),
                Err(_) => Err(CommandError),
            }
        } else if chars_equal(word.as_slice(), &['s', 'e', 'n', 'd']) {
            match CommandRaw::check_send(self) {
                Ok(cmd) => Ok(cmd),
                Err(_) => Err(CommandError),
            }
        } else {
            Ok(Command::Unknown)
        }
    }

    /// Username and password of a register command.
    fn check_register(cmd: CommandRaw) -> (r: Result<UserUnchecked, CommandRawError>)
        requires
            cmd.vec@.len() >= 3,
        ensures
            r matches Ok(u) && u.username == cmd.vec@[1] && u.password == cmd.vec@[2],
    {
        Ok(UserUnchecked { username: cmd.vec[1].clone(), password: cmd.vec[2].clone() })
    }

    /// Username and password of a login command.
    fn check_login(cmd: CommandRaw) -> (r: Result<UserUnchecked, CommandRawError>)
        requires
            cmd.vec@.len() >= 3,
        ensures
            r matches Ok(u) && u.username == cmd.vec@[1] && u.password == cmd.vec@[2],
    {
        Ok(UserUnchecked { username: cmd.vec[1].clone(), password: cmd.vec[2].clone() })
    }

    /// Agreement.
    fn check_yes(_cmd: CommandRaw) -> (r: Result<Command, CommandRawError>)
        ensures
            r matches Ok(Command::Yes),
    {
        Ok(Command::Yes)
    }

    /// Refusal.
    fn check_no(_cmd: CommandRaw) -> (r: Result<Command, CommandRawError>)
        ensures
            r matches Ok(Command::No),
    {
        Ok(Command::No)
    }

    /// A text message to the recipient that the second word names, whose content
    /// is the third word.
    fn check_send(cmd: CommandRaw) -> (r: Result<Command, CommandRawError>)
        requires
            cmd.vec@.len() >= 3,
        ensures
            r matches Ok(Command::Send(kind, recipients, content)) && kind == MessageKind::Text
                && recipients@ == seq![cmd.vec@[1]] && content@ == encode_utf8(cmd.vec@[2]@),
    {
        let recipients = vec![cmd.vec[1].clone()];
        let content = slice_to_vec(cmd.vec[2].as_str().as_bytes());
        Ok(Command::Send(MessageKind::Text, recipients, content))
    }
}

} // verus!
