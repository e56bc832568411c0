//! The model as the bridge's boot and exec calls carry it.
//!
//! Lists cross as newline-separated strings, mounts and sockets as
//! tab-separated fields within them. Both separators are assumed absent from
//! the values: a mount is two paths and a flag, and an argument or environment
//! variable holding a newline would be read as two elements on the far side.

use vstd::prelude::*;
use vstd::string::StringExecFns;
use crate::model::{Direction, Mount, SocketRelay};
use crate::text::{digit, join, joined, lemma_numeral_value, lemma_split_joined, numeral, numeral_text, numeral_value, split, views};

verus! {

/// One element per line; no elements is the empty string, which the far side
/// reads as no elements.
pub fn lines(values: &Vec<String>) -> (text: String)
    ensures
        text@ == joined(views(values@), "\n"@),
{
    join(values, "\n")
}

/// The guest's working directory; `/` when none is declared.
pub fn working_directory(workdir: Option<&str>) -> (directory: String)
    ensures
        directory@ == match workdir {
            Some(path) => path@,
            None => "/"@,
        },
{
    match workdir {
        Some(path) => String::from_str(path),
        None => String::from_str("/"),
    }
}

/// `source\ttarget\tro` for a read-only mount, `...\trw` for a writable one.
pub open spec fn mount_line(mount: Mount) -> Seq<char> {
    mount.source@ + "\t"@ + mount.target@ + "\t"@ + (if mount.readonly { "ro"@ } else { "rw"@ })
}

/// The word the far side reads a direction by.
pub open spec fn direction_word(direction: Direction) -> Seq<char> {
    match direction {
        Direction::IntoGuest => "into"@,
        Direction::OutOfGuest => "outof"@,
    }
}

/// `source\ttarget\tmode\tdirection`, the mode in octal.
pub open spec fn socket_line(socket: SocketRelay) -> Seq<char> {
    socket.source@ + "\t"@ + socket.target@ + "\t"@ + numeral(socket.mode as nat, 8) + "\t"@ + direction_word(socket.direction)
}

/// Each mount's line, in declared order (which matters for nested mounts).
pub fn mounts(declared: &Vec<Mount>) -> (lines: Vec<String>)
    ensures
        lines@.len() == declared@.len(),
        forall|i: int| 0 <= i < declared@.len() ==> (#[trigger] lines@[i])@ == mount_line(declared@[i]),
{
    let mut lines: Vec<String> = Vec::new();
    let mut i: usize = 0;
    while i < declared.len()
        invariant
            i <= declared.len(),
            lines@.len() == i,
            forall|k: int| 0 <= k < i ==> (#[trigger] lines@[k])@ == mount_line(declared@[k]),
        decreases declared.len() - i,
    {
        let mount = &declared[i];
        let mut line = String::from_str(mount.source.as_str());
        line.append("\t");
        line.append(mount.target.as_str());
        line.append("\t");
        if mount.readonly {
            line.append("ro");
        } else {
            line.append("rw");
        }
        lines.push(line);
        i += 1;
    }
    lines
}

/// Each socket's line, in declared order.
pub fn sockets(declared: &Vec<SocketRelay>) -> (lines: Vec<String>)
    ensures
        lines@.len() == declared@.len(),
        forall|i: int| 0 <= i < declared@.len() ==> (#[trigger] lines@[i])@ == socket_line(declared@[i]),
{
    let mut lines: Vec<String> = Vec::new();
    let mut i: usize = 0;
    while i < declared.len()
        invariant
            i <= declared.len(),
            lines@.len() == i,
            forall|k: int| 0 <= k < i ==> (#[trigger] lines@[k])@ == socket_line(declared@[k]),
        decreases declared.len() - i,
    {
        let socket = &declared[i];
        let mut line = String::from_str(socket.source.as_str());
        line.append("\t");
        line.append(socket.target.as_str());
        line.append("\t");
        let mode = numeral_text(socket.mode as u64, 8);
        line.append(mode.as_str());
        line.append("\t");
        match socket.direction {
            Direction::IntoGuest => line.append("into"),
            Direction::OutOfGuest => line.append("outof"),
        }
        lines.push(line);
        i += 1;
    }
    lines
}

/// A numeral holds digits only, so no tab.
proof fn lemma_numeral_has_no_tab(n: nat, base: nat)
    ensures
        !numeral(n, base).contains('\t'),
    decreases n,
{
    if n < base || base < 2 {
        assert(numeral(n, base) =~= seq![digit(n)]);
        assert(numeral(n, base)[0] != '\t');
    } else {
        vstd::arithmetic::div_mod::lemma_div_decreases(n as int, base as int);
        lemma_numeral_has_no_tab(n / base, base);
        let init = numeral(n / base, base);
        assert forall|i: int| 0 <= i < numeral(n, base).len() implies numeral(n, base)[i] != '\t' by {
            if i < init.len() {
                assert(numeral(n, base)[i] == init[i]);
            }
        }
    }
}

/// Values holding no newline come back whole, in order, when the far side
/// splits their lines at newlines; any nonempty list does.
pub proof fn lemma_lines_round_trip(values: Seq<Seq<char>>)
    requires
        values.len() > 0,
        forall|i: int| 0 <= i < values.len() ==> !(#[trigger] values[i]).contains('\n'),
    ensures
        split(joined(values, "\n"@), '\n') == values,
{
    reveal_strlit("\n");
    assert("\n"@ =~= seq!['\n']);
    lemma_split_joined(values, '\n');
}

/// A mount whose paths hold no tab crosses as exactly its source, its target
/// and `ro` or `rw`, in that order.
pub proof fn lemma_mount_line_fields(mount: Mount)
    requires
        !mount.source@.contains('\t'),
        !mount.target@.contains('\t'),
    ensures
        split(mount_line(mount), '\t') == seq![
            mount.source@,
            mount.target@,
            if mount.readonly { "ro"@ } else { "rw"@ },
        ],
{
    reveal_strlit("\t");
    reveal_strlit("ro");
    reveal_strlit("rw");
    let flag: Seq<char> = if mount.readonly { "ro"@ } else { "rw"@ };
    let pieces = seq![mount.source@, mount.target@, flag];
    assert(!flag.contains('\t')) by {
        if flag.contains('\t') {
            let k = choose|k: int| 0 <= k < flag.len() && flag[k] == '\t';
        }
    }
    assert(pieces.drop_last().drop_last() =~= seq![mount.source@]);
    assert(pieces.drop_last() =~= seq![mount.source@, mount.target@]);
    assert(joined(pieces.drop_last().drop_last(), seq!['\t']) == mount.source@);
    assert(joined(pieces.drop_last(), seq!['\t']) == mount.source@ + seq!['\t'] + mount.target@);
    assert(joined(pieces, seq!['\t']) == mount.source@ + seq!['\t'] + mount.target@ + seq!['\t'] + flag);
    assert(joined(pieces, seq!['\t']) =~= mount_line(mount));
    lemma_split_joined(pieces, '\t');
}

/// A socket whose paths hold no tab crosses as exactly its source, its target,
/// its mode in octal and its direction, in that order; the mode's digits read
/// back as the mode.
pub proof fn lemma_socket_line_fields(socket: SocketRelay)
    requires
        !socket.source@.contains('\t'),
        !socket.target@.contains('\t'),
    ensures
        split(socket_line(socket), '\t') == seq![
            socket.source@,
            socket.target@,
            numeral(socket.mode as nat, 8),
            direction_word(socket.direction),
        ],
        numeral_value(numeral(socket.mode as nat, 8), 8) == socket.mode,
{
    reveal_strlit("\t");
    reveal_strlit("into");
    reveal_strlit("outof");
    let mode = numeral(socket.mode as nat, 8);
    let word = direction_word(socket.direction);
    let pieces = seq![socket.source@, socket.target@, mode, word];
    lemma_numeral_has_no_tab(socket.mode as nat, 8);
    assert(!word.contains('\t')) by {
        if word.contains('\t') {
            let k = choose|k: int| 0 <= k < word.len() && word[k] == '\t';
        }
    }
    assert(pieces.drop_last().drop_last().drop_last() =~= seq![socket.source@]);
    assert(pieces.drop_last().drop_last() =~= seq![socket.source@, socket.target@]);
    assert(pieces.drop_last() =~= seq![socket.source@, socket.target@, mode]);
    assert(joined(pieces.drop_last().drop_last().drop_last(), seq!['\t']) == socket.source@);
    assert(joined(pieces.drop_last().drop_last(), seq!['\t']) == socket.source@ + seq!['\t'] + socket.target@);
    assert(joined(pieces.drop_last(), seq!['\t']) == socket.source@ + seq!['\t'] + socket.target@ + seq!['\t'] + mode);
    assert(joined(pieces, seq!['\t']) == socket.source@ + seq!['\t'] + socket.target@ + seq!['\t'] + mode + seq!['\t'] + word);
    assert(joined(pieces, seq!['\t']) =~= socket_line(socket));
    lemma_split_joined(pieces, '\t');
    lemma_numeral_value(socket.mode as nat, 8);
}

} // verus!
