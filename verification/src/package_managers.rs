//! The commands that install packages with each package manager.

pub mod apt;
pub mod chocolatey;
pub mod dnf;
pub mod winget;

use crate::laboratories::machines::operating_system::{OperatingSystem, default_manager};
use crate::laboratories::machines::packages::Manager;
use crate::text::{joined, push_char, views};
use vstd::prelude::*;

verus! {

/// The characters that stand for one character inside single quotes: a
/// single quote closes the quoting, is written escaped, and reopens it.
pub open spec fn quoted_char(c: char) -> Seq<char> {
    if c == '\'' {
        seq!['\'', '\\', '\'', '\'']
    } else {
        seq![c]
    }
}

/// Every character of `text` as it is written inside single quotes.
pub open spec fn quoted_body(text: Seq<char>) -> Seq<char>
    decreases text.len(),
{
    if text.len() == 0 {
        Seq::empty()
    } else {
        quoted_body(text.drop_last()) + quoted_char(text.last())
    }
}

/// `text` as a single POSIX shell word.
pub open spec fn shell_quoted(text: Seq<char>) -> Seq<char> {
    seq!['\''] + quoted_body(text) + seq!['\'']
}

/// The shell words of `values`, separated by spaces.
pub open spec fn shell_words(values: Seq<Seq<char>>) -> Seq<char> {
    joined(values.map_values(|v: Seq<char>| shell_quoted(v)), " "@)
}

/// Appends `value` as a single POSIX shell word.
fn push_shell_quoted(out: &mut String, value: &str)
    ensures
        final(out)@ == old(out)@ + shell_quoted(value@),
{
    let ghost start = out@;
    push_char(out, '\'');
    let n = value.unicode_len();
    let mut i: usize = 0;
    while i < n
        invariant
            n == value@.len(),
            i <= n,
            out@ == start + seq!['\''] + quoted_body(value@.take(i as int)),
        decreases n - i,
    {
        let c = value.get_char(i);
        if c == '\'' {
            push_char(out, '\'');
            push_char(out, '\\');
            push_char(out, '\'');
            push_char(out, '\'');
        } else {
            push_char(out, c);
        }
        proof {
            assert(value@.take(i + 1).drop_last() =~= value@.take(i as int));
            assert(out@ =~= start + seq!['\''] + quoted_body(value@.take(i + 1)));
        }
        i = i + 1;
    }
    push_char(out, '\'');
    assert(value@.take(n as int) =~= value@);
}

/// `value` as a single POSIX shell word: in single quotes, with each single
/// quote written as `'\''`.
pub fn shell_quote(value: &str) -> (word: String)
    ensures
        word@ == shell_quoted(value@),
{
    let mut out = String::new();
    push_shell_quoted(&mut out, value);
    assert(out@ =~= shell_quoted(value@));
    out
}

/// Appends the shell words of `values`, separated by spaces.
pub(crate) fn push_shell_words(out: &mut String, values: &[&str])
    ensures
        final(out)@ == old(out)@ + shell_words(views(values@)),
{
    let ghost start = out@;
    let ghost words = views(values@).map_values(|v: Seq<char>| shell_quoted(v));
    let mut i: usize = 0;
    while i < values.len()
        invariant
            i <= values@.len(),
            words == views(values@).map_values(|v: Seq<char>| shell_quoted(v)),
            out@ == start + joined(words.take(i as int), " "@),
        decreases values.len() - i,
    {
        if i > 0 {
            out.append(" ");
        }
        push_shell_quoted(out, values[i]);
        proof {
            assert(words.take(i + 1).drop_last() =~= words.take(i as int));
            if i == 0 {
                assert(joined(words.take(1), " "@) == words.take(1)[0]);
                assert(out@ =~= start + joined(words.take(1), " "@));
            } else {
                assert(out@ =~= start + joined(words.take(i + 1), " "@));
            }
        }
        i = i + 1;
    }
    assert(words.take(values@.len() as int) =~= words);
}

/// The shell words of `values`, separated by spaces.
pub fn shell_quote_join(values: &[&str]) -> (words: String)
    ensures
        words@ == shell_words(views(values@)),
{
    let mut out = String::new();
    push_shell_words(&mut out, values);
    assert(out@ =~= shell_words(views(values@)));
    out
}

/// The command that makes `manager` available on `os`, when it does not come
/// with the system.
pub open spec fn setup_command(manager: Manager, os: OperatingSystem) -> Option<Seq<char>> {
    match manager {
        Manager::Apt => if default_manager(os) != Manager::Apt {
            Some(apt::SETUP@)
        } else {
            None
        },
        Manager::Dnf => if default_manager(os) != Manager::Dnf {
            Some(dnf::SETUP@)
        } else {
            None
        },
        Manager::Chocolatey => if default_manager(os) != Manager::Chocolatey {
            Some(chocolatey::SETUP@)
        } else {
            None
        },
        Manager::Winget => None,
        Manager::Nix | Manager::Pacman => None,
    }
}

/// The command that installs `packages` with `manager`; none for an empty
/// list, and none for Nix and pacman, for which no command is defined.
pub open spec fn packages_command(manager: Manager, packages: Seq<Seq<char>>) -> Option<Seq<char>> {
    if packages.len() == 0 {
        None
    } else {
        match manager {
            Manager::Apt => Some(apt::install_text(packages)),
            Manager::Dnf => Some(dnf::install_text(packages)),
            Manager::Chocolatey => Some(chocolatey::install_text(packages)),
            Manager::Winget => Some(winget::install_text(packages)),
            Manager::Nix | Manager::Pacman => None,
        }
    }
}

impl Manager {
    /// The command that makes the manager available on `operating_system`,
    /// when it does not come with the system.
    pub fn install_package_manager_command(&self, operating_system: &OperatingSystem) -> (command:
        Option<&'static str>)
        ensures
            match (command, setup_command(*self, *operating_system)) {
                (Some(c), Some(s)) => c@ == s,
                (None, None) => true,
                _ => false,
            },
    {
        match self {
            Manager::Apt => apt::Apt.install_package_manager_command(operating_system),
            Manager::Dnf => dnf::Dnf.install_package_manager_command(operating_system),
            Manager::Chocolatey => chocolatey::Chocolatey.install_package_manager_command(operating_system),
            Manager::Winget => winget::Winget.install_package_manager_command(operating_system),
            Manager::Nix | Manager::Pacman => None,
        }
    }

    /// The command that installs `packages` with the manager.
    pub fn install_packages_command(&self, packages: &[&str]) -> (command: Option<String>)
        ensures
            match (command, packages_command(*self, views(packages@))) {
                (Some(c), Some(s)) => c@ == s,
                (None, None) => true,
                _ => false,
            },
    {
        match self {
            Manager::Apt => apt::Apt.install_packages_command(packages),
            Manager::Dnf => dnf::Dnf.install_packages_command(packages),
            Manager::Chocolatey => chocolatey::Chocolatey.install_packages_command(packages),
            Manager::Winget => winget::Winget.install_packages_command(packages),
            Manager::Nix | Manager::Pacman => None,
        }
    }
}

/// The package manager a system comes with never needs to be set up first.
pub proof fn lemma_default_manager_needs_no_setup(os: OperatingSystem)
    ensures
        setup_command(default_manager(os), os) is None,
{
}

/// Every package manager other than the one a system comes with needs a setup
/// command, except winget (which Windows ships), Nix and pacman.
pub proof fn lemma_other_managers_need_setup(manager: Manager, os: OperatingSystem)
    requires
        manager != default_manager(os),
        manager != Manager::Winget,
        manager != Manager::Nix,
        manager != Manager::Pacman,
    ensures
        setup_command(manager, os) is Some,
{
}


/// How a POSIX shell reads one word: outside quotes a single quote opens a
/// quoted part, a backslash keeps the next character, and a blank ends the
/// word (so the text is no single word); inside quotes every character is
/// kept until the closing quote. None where the text is not one word.
pub open spec fn shell_read(text: Seq<char>, quoted: bool) -> Option<Seq<char>>
    decreases text.len(),
{
    if text.len() == 0 {
        if quoted {
            None
        } else {
            Some(Seq::empty())
        }
    } else {
        let c = text[0];
        let rest = text.skip(1);
        if quoted {
            if c == '\'' {
                shell_read(rest, false)
            } else {
                prefixed(seq![c], shell_read(rest, true))
            }
        } else if c == '\'' {
            shell_read(rest, true)
        } else if c == '\\' {
            if rest.len() == 0 {
                None
            } else {
                prefixed(seq![rest[0]], shell_read(rest.skip(1), false))
            }
        } else if c == ' ' || c == '\t' || c == '\n' {
            None
        } else {
            prefixed(seq![c], shell_read(rest, false))
        }
    }
}

/// `text` before what was read, where something was.
pub open spec fn prefixed(text: Seq<char>, read: Option<Seq<char>>) -> Option<Seq<char>> {
    match read {
        Some(r) => Some(text + r),
        None => None,
    }
}

proof fn lemma_quoted_char_read(c: char, rest: Seq<char>)
    ensures
        shell_read(quoted_char(c) + rest, true) == prefixed(seq![c], shell_read(rest, true)),
{
    if c == '\'' {
        let s0 = quoted_char(c) + rest;
        assert(s0.skip(1) =~= seq!['\\', '\''] + (seq!['\''] + rest));
        let s1 = s0.skip(1);
        assert(s1.skip(1) =~= seq!['\''] + (seq!['\''] + rest));
        assert(s1.skip(1)[0] == '\'');
        assert(s1.skip(1).skip(1) =~= seq!['\''] + rest);
        let s3 = seq!['\''] + rest;
        assert(s3.skip(1) =~= rest);
        assert(shell_read(s3, false) == shell_read(rest, true));
        assert(shell_read(s1, false) == prefixed(seq!['\''], shell_read(s3, false)));
    } else {
        assert((quoted_char(c) + rest).skip(1) =~= rest);
    }
}

proof fn lemma_quoted_body_read(text: Seq<char>, rest: Seq<char>)
    ensures
        shell_read(quoted_body(text) + rest, true) == prefixed(text, shell_read(rest, true)),
    decreases text.len(),
{
    if text.len() == 0 {
        assert(quoted_body(text) + rest =~= rest);
        assert(text =~= Seq::<char>::empty());
        match shell_read(rest, true) {
            Some(r) => assert(text + r =~= r),
            None => {},
        }
    } else {
        let init = text.drop_last();
        let c = text.last();
        assert(quoted_body(text) + rest =~= quoted_body(init) + (quoted_char(c) + rest));
        lemma_quoted_body_read(init, quoted_char(c) + rest);
        lemma_quoted_char_read(c, rest);
        match shell_read(rest, true) {
            Some(r) => assert(init + (seq![c] + r) =~= text + r),
            None => {},
        }
    }
}

/// A word made by `shell_quote` is read by a POSIX shell as exactly one word
/// holding the quoted text, whatever characters (quotes, blanks, `$`,
/// backslashes) the text holds.
pub proof fn lemma_shell_quote_round_trip(text: Seq<char>)
    ensures
        shell_read(shell_quoted(text), false) == Some(text),
{
    let word = shell_quoted(text);
    assert(word.skip(1) =~= quoted_body(text) + seq!['\'']);
    lemma_quoted_body_read(text, seq!['\'']);
    let close = seq!['\''];
    assert(close.skip(1) =~= Seq::<char>::empty());
    assert(shell_read(close, true) == shell_read(Seq::<char>::empty(), false));
    assert(text + Seq::<char>::empty() =~= text);
}

/// Whether a POSIX shell reads `text` as exactly the words `values`, in
/// order, neighbours separated by one blank: no text for no word, a single
/// word read whole for one, else a blank before which the first word is
/// read and after which the rest is.
pub open spec fn reads_as_words(text: Seq<char>, values: Seq<Seq<char>>) -> bool
    decreases values.len(),
{
    if values.len() == 0 {
        text.len() == 0
    } else if values.len() == 1 {
        shell_read(text, false) == Some(values[0])
    } else {
        exists|i: int|
            0 <= i < text.len() && text[i] == ' ' && #[trigger] shell_read(text.take(i), false) == Some(
                values[0],
            ) && reads_as_words(text.skip(i + 1), values.skip(1))
    }
}

/// The pieces laid end to end with a separator are the first piece, the
/// separator, then the others laid end to end.
pub proof fn lemma_joined_front(items: Seq<Seq<char>>, separator: Seq<char>)
    requires
        items.len() >= 2,
    ensures
        joined(items, separator) == items[0] + separator + joined(items.skip(1), separator),
    decreases items.len(),
{
    let rest = items.skip(1);
    if items.len() == 2 {
        assert(items.drop_last().len() == 1);
        assert(rest.len() == 1);
        assert(joined(items.drop_last(), separator) == items[0]);
        assert(joined(rest, separator) == items[1]);
    } else {
        let init = items.drop_last();
        lemma_joined_front(init, separator);
        assert(init.skip(1) =~= rest.drop_last());
        assert(rest.last() == items.last());
        assert(joined(rest, separator) == joined(rest.drop_last(), separator) + separator + rest.last());
        assert(joined(items, separator) == joined(init, separator) + separator + items.last());
        assert(joined(items, separator) =~= items[0] + separator + joined(rest, separator));
    }
}

/// The shell words of a list are read by a POSIX shell as exactly that list,
/// each value whole and in order, whatever characters the values hold.
pub proof fn lemma_shell_words_read_back(values: Seq<Seq<char>>)
    ensures
        reads_as_words(shell_words(values), values),
    decreases values.len(),
{
    let words = values.map_values(|v: Seq<char>| shell_quoted(v));
    if values.len() == 0 {
        assert(shell_words(values) =~= Seq::<char>::empty());
    } else if values.len() == 1 {
        assert(shell_words(values) == words[0]);
        lemma_shell_quote_round_trip(values[0]);
    } else {
        lemma_joined_front(words, " "@);
        assert(words.skip(1) =~= values.skip(1).map_values(|v: Seq<char>| shell_quoted(v)));
        let first = shell_quoted(values[0]);
        let text = shell_words(values);
        let rest = shell_words(values.skip(1));
        reveal_strlit(" ");
        assert(text =~= first + seq![' '] + rest);
        let i = first.len() as int;
        assert(text.take(i) =~= first);
        assert(text[i] == ' ');
        assert(text.skip(i + 1) =~= rest);
        lemma_shell_quote_round_trip(values[0]);
        lemma_shell_words_read_back(values.skip(1));
        assert(shell_read(text.take(i), false) == Some(values[0]));
    }
}

} // verus!
