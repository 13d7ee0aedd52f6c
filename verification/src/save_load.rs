//! Quick saves: which file in the save directory is the last save, which
//! slot the next save goes to, and which asset a load reads.
//!
//! Saves rotate through a fixed number of slots. A save file is named by its
//! slot's number, followed by `.scn.ron`.

use vstd::prelude::*;
use vstd::string::{StrSliceExecFns, StringExecFns, StringSliceAdditionalSpecFns};
use vstd::utf8::{
    encode_utf8, encode_utf8_decode_utf8, encode_utf8_valid_utf8, is_ascii_chars,
    is_ascii_chars_encode_utf8, is_ascii_chars_nat_bound, is_char_boundary,
    is_char_boundary_iff_not_is_continuation_byte, is_char_boundary_start_end_of_seq,
};

verus! {

/// The number of slots that saves rotate through.
pub const SAVE_FILE_AMOUNT: u32 = 5;

/// The number of characters in `.scn.ron`.
pub const SUFFIX_LENGTH: usize = 8;

/// What stands for "the haystack matches the pattern" as the regular
/// expression engine decides it: whether the pattern is one at all, and if so,
/// whether it matches somewhere in the haystack.
pub uninterp spec fn regex_verdict(pattern: Seq<char>, haystack: Seq<char>) -> Option<bool>;

/// Calls `regex::Regex::new` on the pattern and, where that gives a regular
/// expression, `regex::Regex::is_match` on the haystack. The result is
/// `None` for a pattern that is refused and otherwise what `is_match`
/// returned; it depends on the two texts alone. Neither call panics.
#[verifier::external_body]
fn regex_is_match(pattern: &str, haystack: &str) -> (verdict: Option<bool>)
    ensures
        verdict == regex_verdict(pattern@, haystack@),
{
    match regex::Regex::new(pattern) {
        Ok(compiled) => Some(compiled.is_match(haystack)),
        Err(_) => None,
    }
}

/// The pattern of a save file's name: digits, as many as there are, then
/// `.scn.ron`, and nothing before or after.
pub open spec fn save_pattern() -> Seq<char> {
    "^\\d*\\.scn\\.ron$"@
}

/// The name is one of a save file.
pub open spec fn names_save(file_name: Seq<char>) -> bool {
    regex_verdict(save_pattern(), file_name) == Some(true)
}

/// Whether a file of this name is a save file.
pub fn is_save_file(file_name: &str) -> (is_save: bool)
    ensures
        is_save == names_save(file_name@),
{
    match regex_is_match("^\\d*\\.scn\\.ron$", file_name) {
        Some(matches) => matches,
        None => false,
    }
}

/// A file in the save directory: its name and when it was last modified.
#[derive(Debug)]
pub struct SaveFile {
    pub file_name: String,
    pub seconds: i64,
    pub nanoseconds: u32,
}

/// What the choice of the last save reads of a file: whether it is a save
/// file, and when it was last modified.
#[derive(Clone, Copy, Debug, PartialEq, Eq, Structural)]
pub struct Candidate {
    pub is_save: bool,
    pub seconds: i64,
    pub nanoseconds: u32,
}

/// `a` was modified before `b`.
pub open spec fn older(a: Candidate, b: Candidate) -> bool {
    a.seconds < b.seconds || (a.seconds == b.seconds && a.nanoseconds < b.nanoseconds)
}

/// `a` and `b` were modified at the same time.
pub open spec fn same_age(a: Candidate, b: Candidate) -> bool {
    a.seconds == b.seconds && a.nanoseconds == b.nanoseconds
}

/// `index` is the save file modified last, the latest in the listing where
/// several were modified at that time.
pub open spec fn is_last_save(candidates: Seq<Candidate>, index: int) -> bool {
    &&& 0 <= index < candidates.len()
    &&& candidates[index].is_save
    &&& forall|j: int|
        0 <= j < candidates.len() && (#[trigger] candidates[j]).is_save ==> {
            ||| older(candidates[j], candidates[index])
            ||| (same_age(candidates[j], candidates[index]) && j <= index)
        }
}

/// Picks the save file that was modified last. There is none exactly when
/// no candidate is a save file.
pub fn newest_save(candidates: &Vec<Candidate>) -> (choice: Option<usize>)
    ensures
        match choice {
            Some(index) => is_last_save(candidates@, index as int),
            None => forall|j: int| 0 <= j < candidates@.len() ==> !candidates@[j].is_save,
        },
{
    let mut best: Option<usize> = None;
    let mut i: usize = 0;
    while i < candidates.len()
        invariant
            0 <= i <= candidates@.len(),
            match best {
                Some(index) => index < i && is_last_save(candidates@.take(i as int), index as int),
                None => forall|j: int| 0 <= j < i ==> !candidates@[j].is_save,
            },
        decreases candidates@.len() - i,
    {
        let candidate = candidates[i];
        let ghost before = candidates@.take(i as int);
        let ghost after = candidates@.take(i as int + 1);
        proof {
            assert forall|j: int| 0 <= j < i implies after[j] == before[j] by {}
            assert(after[i as int] == candidates@[i as int]);
        }
        if candidate.is_save {
            let replace = match best {
                Some(index) => {
                    let held = candidates[index];
                    !(candidate.seconds < held.seconds || (candidate.seconds == held.seconds
                        && candidate.nanoseconds < held.nanoseconds))
                },
                None => true,
            };
            if replace {
                best = Some(i);
            }
        }
        i = i + 1;
    }
    proof {
        assert(candidates@.take(i as int) =~= candidates@);
    }
    best
}

/// At most one candidate is the last save.
pub proof fn last_save_is_unique(candidates: Seq<Candidate>, a: int, b: int)
    requires
        is_last_save(candidates, a),
        is_last_save(candidates, b),
    ensures
        a == b,
{
}

/// What the choice reads of each file of a listing.
pub open spec fn candidates_of(files: Seq<SaveFile>) -> Seq<Candidate> {
    Seq::new(
        files.len(),
        |i: int|
            Candidate {
                is_save: names_save(files[i].file_name@),
                seconds: files[i].seconds,
                nanoseconds: files[i].nanoseconds,
            },
    )
}

/// Finds the last save in a listing of the save directory: the file with a
/// save file's name that was modified last.
pub fn get_last_save(files: &Vec<SaveFile>) -> (choice: Option<usize>)
    ensures
        match choice {
            Some(index) => is_last_save(candidates_of(files@), index as int),
            None => forall|j: int| 0 <= j < files@.len() ==> !names_save(files@[j].file_name@),
        },
{
    let mut candidates: Vec<Candidate> = Vec::new();
    let mut i: usize = 0;
    while i < files.len()
        invariant
            0 <= i <= files@.len(),
            candidates@ == candidates_of(files@.take(i as int)),
        decreases files@.len() - i,
    {
        let file = &files[i];
        candidates.push(
            Candidate {
                is_save: is_save_file(file.file_name.as_str()),
                seconds: file.seconds,
                nanoseconds: file.nanoseconds,
            },
        );
        proof {
            assert(candidates@ =~= candidates_of(files@.take(i as int + 1)));
        }
        i = i + 1;
    }
    proof {
        assert(files@.take(i as int) =~= files@);
    }
    let choice = newest_save(&candidates);
    proof {
        if choice is None {
            assert forall|j: int| 0 <= j < files@.len() implies !names_save(
                files@[j].file_name@,
            ) by {
                assert(!candidates@[j].is_save);
            }
        }
    }
    choice
}

/// The character is a decimal digit.
pub open spec fn is_digit(c: char) -> bool {
    '0' <= c <= '9'
}

/// Every character is a decimal digit.
pub open spec fn all_digits(text: Seq<char>) -> bool {
    forall|i: int| 0 <= i < text.len() ==> is_digit(#[trigger] text[i])
}

/// The number that a text of decimal digits writes.
pub open spec fn decimal_value(digits: Seq<char>) -> nat
    decreases digits.len(),
{
    if digits.len() == 0 {
        0
    } else {
        decimal_value(digits.drop_last()) * 10 + (digits.last() as nat - '0' as nat) as nat
    }
}

/// The end of every save file's name.
pub open spec fn suffix() -> Seq<char> {
    seq!['.', 's', 'c', 'n', '.', 'r', 'o', 'n']
}

/// The number in a save file's name: the name is one or more decimal digits
/// that write a number up to `i32::MAX`, followed by `.scn.ron`. Any other
/// name holds no number.
pub open spec fn slot_in(file_name: Seq<char>) -> Option<nat> {
    let split = file_name.len() - SUFFIX_LENGTH;
    let digits = file_name.subrange(0, split);
    if file_name.len() > SUFFIX_LENGTH && file_name.subrange(split, file_name.len() as int)
        == suffix() && all_digits(digits) && decimal_value(digits) <= i32::MAX {
        Some(decimal_value(digits))
    } else {
        None
    }
}

/// A number only grows as digits are added behind it.
pub proof fn decimal_value_grows(digits: Seq<char>, length: int)
    requires
        0 <= length <= digits.len(),
        all_digits(digits),
    ensures
        decimal_value(digits.take(length)) <= decimal_value(digits),
    decreases digits.len(),
{
    if length < digits.len() {
        assert(is_digit(digits.last()));
        assert(digits.drop_last().take(length) =~= digits.take(length));
        decimal_value_grows(digits.drop_last(), length);
    } else {
        assert(digits.take(length) =~= digits);
    }
}

/// Reads the number in a save file's name.
pub fn save_number(file_name: &str) -> (number: Option<u32>)
    ensures
        match slot_in(file_name@) {
            Some(value) => number == Some(value as u32),
            None => number is None,
        },
{
    let length = file_name.unicode_len();
    if length <= SUFFIX_LENGTH {
        return None;
    }
    let split = length - SUFFIX_LENGTH;
    let ghost tail = file_name@.subrange(split as int, length as int);
    if file_name.get_char(split) != '.' || file_name.get_char(split + 1) != 's'
        || file_name.get_char(split + 2) != 'c' || file_name.get_char(split + 3) != 'n'
        || file_name.get_char(split + 4) != '.' || file_name.get_char(split + 5) != 'r'
        || file_name.get_char(split + 6) != 'o' || file_name.get_char(split + 7) != 'n' {
        proof {
            assert(tail[0] == file_name@[split as int]);
            assert(tail[1] == file_name@[split + 1]);
            assert(tail[2] == file_name@[split + 2]);
            assert(tail[3] == file_name@[split + 3]);
            assert(tail[4] == file_name@[split + 4]);
            assert(tail[5] == file_name@[split + 5]);
            assert(tail[6] == file_name@[split + 6]);
            assert(tail[7] == file_name@[split + 7]);
        }
        return None;
    }
    proof {
        assert(tail =~= suffix());
    }
    let ghost digits = file_name@.subrange(0, split as int);
    let mut value: u64 = 0;
    let mut i: usize = 0;
    while i < split
        invariant
            0 <= i <= split,
            split + SUFFIX_LENGTH == file_name@.len(),
            digits == file_name@.subrange(0, split as int),
            all_digits(digits.take(i as int)),
            value == decimal_value(digits.take(i as int)),
            value <= i32::MAX,
        decreases split - i,
    {
        let c = file_name.get_char(i);
        proof {
            assert(digits[i as int] == c);
            assert(digits.take(i as int + 1).drop_last() =~= digits.take(i as int));
            assert(digits.take(i as int + 1).last() == c);
        }
        if c < '0' || c > '9' {
            return None;
        }
        let digit = (c as u32 - '0' as u32) as u64;
        let next = value * 10 + digit;
        if next > i32::MAX as u64 {
            proof {
                if all_digits(digits) {
                    decimal_value_grows(digits, i as int + 1);
                }
            }
            return None;
        }
        value = next;
        i = i + 1;
    }
    proof {
        assert(digits.take(split as int) =~= digits);
    }
    Some(value as u32)
}

/// The slot after a slot: one on, and from the last slot back to the first.
pub open spec fn slot_after(number: nat) -> nat {
    if number + 1 > SAVE_FILE_AMOUNT {
        1
    } else {
        number + 1
    }
}

/// The slot of the next save. The first save of all goes to the first slot.
pub fn next_save_number(last: Option<u32>) -> (next: u32)
    ensures
        next == slot_after(
            match last {
                Some(number) => number as nat,
                None => 0,
            },
        ),
        1 <= next <= SAVE_FILE_AMOUNT,
{
    let number = match last {
        Some(number) => number,
        None => 0,
    };
    if number >= SAVE_FILE_AMOUNT {
        1
    } else {
        number + 1
    }
}

/// The digit that writes a slot's number.
pub open spec fn slot_digit(slot: nat) -> char {
    if slot == 1 {
        '1'
    } else if slot == 2 {
        '2'
    } else if slot == 3 {
        '3'
    } else if slot == 4 {
        '4'
    } else {
        '5'
    }
}

/// The file that a slot is saved to.
pub open spec fn slot_path(slot: nat) -> Seq<char> {
    "assets/saves/"@ + seq![slot_digit(slot)] + suffix()
}

/// The file that the next save is written to, given the name of the last
/// save file, if there is one. There is no such file exactly when the last
/// save file's name holds no number.
pub fn quick_save_game(last_file: Option<&str>) -> (path: Option<String>)
    ensures
        match last_file {
            None => path matches Some(file) && file@ == slot_path(1),
            Some(file_name) => match slot_in(file_name@) {
                Some(number) => path matches Some(file) && file@ == slot_path(slot_after(number)),
                None => path is None,
            },
        },
{
    let last = match last_file {
        None => None,
        Some(file_name) => match save_number(file_name) {
            Some(number) => Some(number),
            None => {
                return None;
            },
        },
    };
    let next = next_save_number(last);
    let digit = if next == 1 {
        "1"
    } else if next == 2 {
        "2"
    } else if next == 3 {
        "3"
    } else if next == 4 {
        "4"
    } else {
        "5"
    };
    let mut path = String::from_str("assets/saves/");
    path.append(digit);
    path.append(".scn.ron");
    proof {
        reveal_strlit("1");
        reveal_strlit("2");
        reveal_strlit("3");
        reveal_strlit("4");
        reveal_strlit("5");
        reveal_strlit(".scn.ron");
        assert(digit@ =~= seq![slot_digit(next as nat)]);
        assert(".scn.ron"@ =~= suffix());
    }
    Some(path)
}

/// The number of bytes that `assets/` takes at the start of the path of
/// every file below the asset directory.
pub const ASSET_ROOT_LENGTH: usize = 7;

/// The path can be cut behind its first `ASSET_ROOT_LENGTH` bytes: it has
/// that many, and no character straddles the cut.
pub open spec fn has_asset_root(path: &str) -> bool {
    is_char_boundary(path.spec_bytes(), ASSET_ROOT_LENGTH as int)
}

/// The asset that a load reads, given the path of the last save file, if
/// there is one: what follows the first `ASSET_ROOT_LENGTH` bytes of the
/// path, which is the path as seen from the asset directory. Nothing is
/// loaded without a last save, nor from a path that cannot be cut there.
pub fn quick_load_game<'a>(last_file: Option<&'a str>) -> (asset: Option<&'a str>)
    ensures
        match last_file {
            Some(path) if has_asset_root(path) => {
                &&& asset matches Some(rest)
                &&& rest.spec_bytes() == path.spec_bytes().subrange(
                    ASSET_ROOT_LENGTH as int,
                    path.spec_bytes().len() as int,
                )
            },
            _ => asset is None,
        },
{
    match last_file {
        None => None,
        Some(path) => {
            if path.is_char_boundary(ASSET_ROOT_LENGTH) {
                let (_, rest) = path.split_at(ASSET_ROOT_LENGTH);
                Some(rest)
            } else {
                None
            }
        },
    }
}

/// In a path of ASCII characters every byte is a character: the path can be
/// cut exactly when it has `ASSET_ROOT_LENGTH` characters or more, and what
/// follows the cut is the path without its first `ASSET_ROOT_LENGTH`
/// characters.
pub proof fn asset_of_ascii_path(path: &str, rest: &str)
    requires
        is_ascii_chars(path@),
    ensures
        has_asset_root(path) <==> path@.len() >= ASSET_ROOT_LENGTH,
        has_asset_root(path) && rest.spec_bytes() == path.spec_bytes().subrange(
            ASSET_ROOT_LENGTH as int,
            path.spec_bytes().len() as int,
        ) ==> rest@ == path@.subrange(ASSET_ROOT_LENGTH as int, path@.len() as int),
{
    let bytes = path.spec_bytes();
    let cut = ASSET_ROOT_LENGTH as int;
    is_ascii_chars_encode_utf8(path@);
    is_ascii_chars_nat_bound(path@);
    encode_utf8_valid_utf8(path@);
    if path@.len() == cut {
        is_char_boundary_start_end_of_seq(bytes);
    } else if path@.len() > cut {
        assert(bytes[cut] == path@[cut] as u8);
        is_char_boundary_iff_not_is_continuation_byte(bytes, cut);
    }
    if path@.len() >= cut {
        let tail = path@.subrange(cut, path@.len() as int);
        assert(is_ascii_chars(tail)) by {
            assert forall|i: int| 0 <= i < tail.len() implies '\0' <= #[trigger] tail[i]
                <= '\u{7f}' by {
                assert(tail[i] == path@[i + cut]);
            }
        }
        is_ascii_chars_encode_utf8(tail);
        assert(encode_utf8(tail) =~= bytes.subrange(cut, bytes.len() as int)) by {
            assert forall|i: int| 0 <= i < tail.len() implies encode_utf8(tail)[i]
                == bytes.subrange(cut, bytes.len() as int)[i] by {
                assert(tail[i] == path@[i + cut]);
                assert(bytes[i + cut] == path@[i + cut] as u8);
            }
        }
        if rest.spec_bytes() == bytes.subrange(cut, bytes.len() as int) {
            encode_utf8_decode_utf8(rest@);
            encode_utf8_decode_utf8(tail);
        }
    }
}

} // verus!
