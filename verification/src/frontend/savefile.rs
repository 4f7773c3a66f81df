//! Save files and their backups: when a save is written, and which files move
//! where before it.

use vstd::prelude::*;
use vstd::string::*;

verus! {

/// How many old saves are kept.
pub const BACKUP_SLOTS: u32 = 5;

/// A change to the files of a save. Slot 0 is the save itself; slot `n` is its
/// backup number `n`.
#[derive(Debug, Clone, Copy, PartialEq, Eq, Structural)]
pub enum FileStep {
    Remove(u32),
    /// Moves the file of one slot to another; a missing file is skipped.
    Rename(u32, u32),
}

/// The steps that move every slot up by one and drop the last: the last is
/// removed first, then the others move, highest first, the save itself last.
pub open spec fn rotation(slots: u32) -> Seq<FileStep> {
    if slots == 0 {
        Seq::empty()
    } else {
        Seq::new(
            (slots + 1) as nat,
            |i: int|
                if i == 0 {
                    FileStep::Remove(slots)
                } else {
                    FileStep::Rename((slots - i) as u32, (slots - i + 1) as u32)
                },
        )
    }
}

/// What to do with the files before a save is written.
pub fn backup_rotation(slots: u32) -> (steps: Vec<FileStep>)
    requires
        slots < u32::MAX,
    ensures
        steps@ == rotation(slots),
{
    let mut steps: Vec<FileStep> = Vec::new();
    if slots > 0 {
        steps.push(FileStep::Remove(slots));
        let mut n: u32 = slots;
        while n > 0
            invariant
                n <= slots < u32::MAX,
                steps@.len() == slots - n + 1,
                forall|i: int| 0 <= i < steps@.len() ==> #[trigger] steps@[i] == rotation(slots)[i],
            decreases n,
        {
            steps.push(FileStep::Rename(n - 1, n));
            n = n - 1;
        }
    }
    assert(steps@ =~= rotation(slots));
    steps
}

/// The contents of slot `i` after a step. A file that is not there has none.
pub open spec fn after_step(files: spec_fn(int) -> Option<Seq<u8>>, step: FileStep) -> spec_fn(
    int,
) -> Option<Seq<u8>> {
    match step {
        FileStep::Remove(n) => |i: int|
            if i == n {
                None
            } else {
                files(i)
            },
        FileStep::Rename(from, to) => |i: int|
            if files(from as int) is None {
                files(i)
            } else if i == to {
                files(from as int)
            } else if i == from {
                None
            } else {
                files(i)
            },
    }
}

/// The contents after the first `n` of a list of steps.
pub open spec fn after_steps(
    files: spec_fn(int) -> Option<Seq<u8>>,
    steps: Seq<FileStep>,
    n: nat,
) -> spec_fn(int) -> Option<Seq<u8>>
    decreases n,
{
    if n == 0 {
        files
    } else {
        after_step(after_steps(files, steps, (n - 1) as nat), steps[n - 1])
    }
}

proof fn rotation_so_far(files: spec_fn(int) -> Option<Seq<u8>>, slots: u32, k: nat)
    requires
        0 < slots < u32::MAX,
        1 <= k <= slots + 1,
    ensures
        ({
            let f = after_steps(files, rotation(slots), k);
            forall|i: int|
                0 <= i <= slots ==> #[trigger] f(i) == (if i <= slots - k {
                    files(i)
                } else if i == slots - k + 1 {
                    None
                } else {
                    files(i - 1)
                })
        }),
    decreases k,
{
    reveal_with_fuel(after_steps, 2);
    if k > 1 {
        rotation_so_far(files, slots, (k - 1) as nat);
    }
}

/// The rotation keeps every save but the oldest: each slot holds what the one
/// below it held, and the place of the save itself is free. This holds whether
/// or not the files are there.
pub proof fn rotation_keeps_saves(files: spec_fn(int) -> Option<Seq<u8>>, slots: u32)
    requires
        0 < slots < u32::MAX,
    ensures
        ({
            let f = after_steps(files, rotation(slots), rotation(slots).len());
            &&& f(0) is None
            &&& forall|i: int| 1 <= i <= slots ==> #[trigger] f(i) == files(i - 1)
        }),
{
    rotation_so_far(files, slots, (slots + 1) as nat);
}

/// Whether a save has to be written: not if the file already holds it.
pub fn needs_write(existing: &Option<Vec<u8>>, data: &Vec<u8>) -> (write: bool)
    ensures
        write == (match *existing {
            Some(e) => e@ != data@,
            None => true,
        }),
{
    match existing {
        None => true,
        Some(e) => {
            if e.len() != data.len() {
                return true;
            }
            let mut i: usize = 0;
            while i < data.len()
                invariant
                    i <= data@.len(),
                    existing is Some,
                    existing->0@ == e@,
                    e@.len() == data@.len(),
                    forall|j: int| 0 <= j < i ==> e@[j] == data@[j],
                decreases data@.len() - i,
            {
                if e[i] != data[i] {
                    return true;
                }
                i = i + 1;
            }
            assert(e@ =~= data@);
            false
        },
    }
}

/// The decimal digit `d`.
pub open spec fn digit(d: int) -> char {
    (d + 48) as char
}

/// `n` in decimal.
pub open spec fn decimal(n: nat) -> Seq<char>
    decreases n,
{
    if n < 10 {
        seq![digit(n as int)]
    } else {
        decimal(n / 10).push(digit((n % 10) as int))
    }
}

fn append_digit(text: &mut String, d: u32)
    requires
        d < 10,
    ensures
        final(text)@ == old(text)@.push(digit(d as int)),
{
    proof {
        reveal_strlit("0");
        reveal_strlit("1");
        reveal_strlit("2");
        reveal_strlit("3");
        reveal_strlit("4");
        reveal_strlit("5");
        reveal_strlit("6");
        reveal_strlit("7");
        reveal_strlit("8");
        reveal_strlit("9");
    }
    match d {
        0 => text.append("0"),
        1 => text.append("1"),
        2 => text.append("2"),
        3 => text.append("3"),
        4 => text.append("4"),
        5 => text.append("5"),
        6 => text.append("6"),
        7 => text.append("7"),
        8 => text.append("8"),
        _ => text.append("9"),
    }
    assert(text@ =~= old(text)@.push(digit(d as int)));
}

fn append_decimal(text: &mut String, n: u32)
    ensures
        final(text)@ == old(text)@ + decimal(n as nat),
    decreases n,
{
    let ghost before = text@;
    if n >= 10 {
        append_decimal(text, n / 10);
    }
    append_digit(text, n % 10);
    assert(text@ =~= before + decimal(n as nat));
}

/// What a backup's file name adds to that of the save.
pub open spec fn suffix(n: u32) -> Seq<char> {
    ".bak-"@ + decimal(n as nat)
}

/// The ending of backup number `n`.
pub fn backup_suffix(n: u32) -> (text: String)
    ensures
        text@ == suffix(n),
{
    let mut text = String::from_str(".bak-");
    append_decimal(&mut text, n);
    text
}

/// Decimal numbers: a digit more is ten times the number plus the digit, and
/// the digits are the characters from 0 to 9.
pub proof fn decimals_append(n: nat, d: int)
    requires
        n > 0,
        0 <= d < 10,
    ensures
        decimal((10 * n + d) as nat) == decimal(n).push(digit(d)),
        decimal(d as nat) == seq![digit(d)],
        digit(0) == '0',
        digit(1) == '1',
        digit(5) == '5',
        digit(9) == '9',
        d < 9 ==> digit(d + 1) as int == digit(d) as int + 1,
{
    assert((10 * n + d) / 10 == n && (10 * n + d) % 10 == d);
}

} // verus!
