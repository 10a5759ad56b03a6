//! The usage of the mounted file systems: the listing that reports it,
//! line by line, and the table that a round looks the watched mount point
//! up in.

use crate::text::{char_bound, first_of, lemma_stretch};
use vstd::prelude::*;
use vstd::string::{StrSliceExecFns, StringExecFns};

verus! {

/// The decimal digits of `n`, as ASCII, without leading zeros.
pub open spec fn decimal_digits(n: nat) -> Seq<u8>
    decreases n,
{
    if n < 10 {
        seq![(0x30 + n) as u8]
    } else {
        decimal_digits(n / 10).push((0x30 + n % 10) as u8)
    }
}

/// `n` in decimal digits.
pub fn decimal(n: u32) -> (digits: Vec<u8>)
    ensures
        digits@ == decimal_digits(n as nat),
    decreases n,
{
    if n < 10 {
        let mut digits: Vec<u8> = Vec::new();
        digits.push(0x30 + n as u8);
        assert(digits@ == seq![(0x30 + n) as u8]);
        digits
    } else {
        let mut digits = decimal(n / 10);
        digits.push(0x30 + (n % 10) as u8);
        digits
    }
}

/// The value of a decimal digit.
pub open spec fn digit_value(c: char) -> Option<nat> {
    if '0' <= c <= '9' {
        Some((c as u32 - '0' as u32) as nat)
    } else {
        None
    }
}

/// The number that a run of decimal digits stands for; `None` where a
/// character is no digit. The empty run stands for zero.
pub open spec fn digits_value(digits: Seq<char>) -> Option<nat>
    decreases digits.len(),
{
    if digits.len() == 0 {
        Some(0)
    } else {
        match (digits_value(digits.drop_last()), digit_value(digits.last())) {
            (Some(value), Some(digit)) => Some(value * 10 + digit),
            _ => None,
        }
    }
}

/// The number that `text` is the decimal form of: one or more digits,
/// after a `+` or without one, that stand for no more than `u32::MAX`.
pub open spec fn decimal_value(text: Seq<char>) -> Option<u32> {
    let digits = if text.len() > 0 && text[0] == '+' {
        text.skip(1)
    } else {
        text
    };
    match digits_value(digits) {
        Some(value) if digits.len() > 0 && value <= u32::MAX => Some(value as u32),
        _ => None,
    }
}

/// The number that `text` is the decimal form of, if it is one.
pub fn parse_decimal(text: &str) -> (number: Option<u32>)
    ensures
        number == decimal_value(text@),
{
    let bound = char_bound(text);
    // The digits read so far, their number, and whether they are digits
    // at all and stand for more than fits.
    let mut value: u64 = 0;
    let mut count: usize = 0;
    let mut signed = false;
    let mut valid = true;
    let mut big = false;
    let ghost mut total: nat = 0;
    let ghost mut seen: int = 0;
    for c in it: text.chars()
        invariant
            it.seq() == text@,
            text@.len() <= bound,
            seen == it.index(),
            signed ==> seen > 0 && text@[0] == '+',
            !signed && seen > 0 ==> text@[0] != '+',
            count == seen - if signed {
                1int
            } else {
                0int
            },
            valid ==> digits_value(text@.subrange(seen - count, seen)) == Some(total),
            !valid ==> digits_value(text@.subrange(seen - count, seen)) is None,
            valid && !big ==> total == value && value <= u32::MAX,
            valid && big ==> total > u32::MAX,
    {
        if count == 0 && !signed && c == '+' {
            signed = true;
            assert(text@.subrange(seen + 1, seen + 1) == Seq::<char>::empty());
        } else {
            proof {
                let before = text@.subrange(seen - count, seen);
                let after = text@.subrange(seen - count, seen + 1);
                assert(after.drop_last() == before);
                assert(after.last() == c);
            }
            if '0' <= c && c <= '9' {
                if valid {
                    let digit = (c as u32 - '0' as u32) as u64;
                    if !big {
                        value = value * 10 + digit;
                        if value > u32::MAX as u64 {
                            big = true;
                        }
                    }
                    proof {
                        total = total * 10 + digit as nat;
                    }
                }
            } else {
                valid = false;
            }
            count += 1;
        }
        proof {
            seen = seen + 1;
        }
    }
    proof {
        if signed {
            assert(text@.subrange(1, seen) == text@.skip(1));
        } else {
            assert(text@.subrange(0, seen) == text@);
        }
    }
    if valid && !big && count > 0 {
        Some(value as u32)
    } else {
        None
    }
}

/// How far the reading of a number has come.
#[derive(Clone, Copy, Debug, PartialEq, Eq)]
pub enum NumberPart {
    /// Nothing is read yet.
    Start,
    /// The sign is read.
    Sign,
    /// Digits are read, and no point.
    Whole,
    /// The point is read, and no digit.
    Point,
    /// The point is read, and a digit before or after it.
    Fraction,
    /// The exponent's mark is read.
    Exponent,
    /// The exponent's sign is read.
    ExponentSign,
    /// Digits of the exponent are read.
    ExponentDigits,
    /// What is read is the beginning of no number.
    Invalid,
}

/// A decimal digit.
pub open spec fn is_digit(c: char) -> bool {
    '0' <= c <= '9'
}

/// The part that is reached from `part` by reading `c`.
pub open spec fn number_step(part: NumberPart, c: char) -> NumberPart {
    let sign = c == '+' || c == '-';
    let mark = c == 'e' || c == 'E';
    match part {
        NumberPart::Start => if sign {
            NumberPart::Sign
        } else if is_digit(c) {
            NumberPart::Whole
        } else if c == '.' {
            NumberPart::Point
        } else {
            NumberPart::Invalid
        },
        NumberPart::Sign => if is_digit(c) {
            NumberPart::Whole
        } else if c == '.' {
            NumberPart::Point
        } else {
            NumberPart::Invalid
        },
        NumberPart::Whole => if is_digit(c) {
            NumberPart::Whole
        } else if c == '.' {
            NumberPart::Fraction
        } else if mark {
            NumberPart::Exponent
        } else {
            NumberPart::Invalid
        },
        NumberPart::Point => if is_digit(c) {
            NumberPart::Fraction
        } else {
            NumberPart::Invalid
        },
        NumberPart::Fraction => if is_digit(c) {
            NumberPart::Fraction
        } else if mark {
            NumberPart::Exponent
        } else {
            NumberPart::Invalid
        },
        NumberPart::Exponent => if sign {
            NumberPart::ExponentSign
        } else if is_digit(c) {
            NumberPart::ExponentDigits
        } else {
            NumberPart::Invalid
        },
        NumberPart::ExponentSign | NumberPart::ExponentDigits => if is_digit(c) {
            NumberPart::ExponentDigits
        } else {
            NumberPart::Invalid
        },
        NumberPart::Invalid => NumberPart::Invalid,
    }
}

/// The part that reading all of `text` reaches.
pub open spec fn number_part(text: Seq<char>) -> NumberPart
    decreases text.len(),
{
    if text.len() == 0 {
        NumberPart::Start
    } else {
        number_step(number_part(text.drop_last()), text.last())
    }
}

/// `text` is a number in decimal notation: after a sign or without one,
/// digits with or without a point among them, one digit at the least, and
/// then possibly an exponent, which is `e` or `E`, a sign or none, and
/// digits.
pub open spec fn is_number(text: Seq<char>) -> bool {
    let part = number_part(text);
    part == NumberPart::Whole || part == NumberPart::Fraction || part
        == NumberPart::ExponentDigits
}

/// The part that is reached from `part` by reading `c`.
fn read_on(part: NumberPart, c: char) -> (next: NumberPart)
    ensures
        next == number_step(part, c),
{
    let sign = c == '+' || c == '-';
    let mark = c == 'e' || c == 'E';
    let digit = '0' <= c && c <= '9';
    match part {
        NumberPart::Start => if sign {
            NumberPart::Sign
        } else if digit {
            NumberPart::Whole
        } else if c == '.' {
            NumberPart::Point
        } else {
            NumberPart::Invalid
        },
        NumberPart::Sign => if digit {
            NumberPart::Whole
        } else if c == '.' {
            NumberPart::Point
        } else {
            NumberPart::Invalid
        },
        NumberPart::Whole => if digit {
            NumberPart::Whole
        } else if c == '.' {
            NumberPart::Fraction
        } else if mark {
            NumberPart::Exponent
        } else {
            NumberPart::Invalid
        },
        NumberPart::Point => if digit {
            NumberPart::Fraction
        } else {
            NumberPart::Invalid
        },
        NumberPart::Fraction => if digit {
            NumberPart::Fraction
        } else if mark {
            NumberPart::Exponent
        } else {
            NumberPart::Invalid
        },
        NumberPart::Exponent => if sign {
            NumberPart::ExponentSign
        } else if digit {
            NumberPart::ExponentDigits
        } else {
            NumberPart::Invalid
        },
        NumberPart::ExponentSign | NumberPart::ExponentDigits => if digit {
            NumberPart::ExponentDigits
        } else {
            NumberPart::Invalid
        },
        NumberPart::Invalid => NumberPart::Invalid,
    }
}

/// Whether `text` is a number in decimal notation.
pub fn is_number_text(text: &str) -> (number: bool)
    ensures
        number == is_number(text@),
{
    let mut part = NumberPart::Start;
    for c in it: text.chars()
        invariant
            it.seq() == text@,
            part == number_part(text@.take(it.index())),
    {
        proof {
            let read = text@.take(it.index() + 1);
            assert(read.drop_last() == text@.take(it.index()));
            assert(read.last() == c);
        }
        part = read_on(part, c);
    }
    assert(text@.take(text@.len() as int) == text@);
    match part {
        NumberPart::Whole | NumberPart::Fraction | NumberPart::ExponentDigits => true,
        _ => false,
    }
}

/// One line of the usage listing, as it is read: the file system's name,
/// its size and its used and available space, each a number as it is
/// written, the usage as a percentage, and the mount point.
#[derive(Debug, PartialEq, Eq)]
pub struct MountLine {
    pub name: String,
    pub size: String,
    pub used: String,
    pub available: String,
    pub usage: u32,
    pub mount: String,
}

/// The mathematical content of a [`MountLine`].
pub struct MountLineView {
    pub name: Seq<char>,
    pub size: Seq<char>,
    pub used: Seq<char>,
    pub available: Seq<char>,
    pub usage: u32,
    pub mount: Seq<char>,
}

impl View for MountLine {
    type V = MountLineView;

    open spec fn view(&self) -> MountLineView {
        MountLineView {
            name: self.name@,
            size: self.size@,
            used: self.used@,
            available: self.available@,
            usage: self.usage,
            mount: self.mount@,
        }
    }
}

/// The pattern of a line of the usage listing: a name, three numbers, a
/// percentage and a mount point, with whitespace in between.
pub open spec fn mount_line_format() -> Seq<char> {
    "{} {f} {f} {f} {d}% {}"@
}

/// A character that the scanner takes for whitespace.
pub open spec fn scan_space(c: char) -> bool {
    c == ' ' || c == '\t' || c == '\n' || c == '\r'
}

/// The tokens that the scanner takes from `input` by the pattern
/// `format`, in the pattern's order.
pub uninterp spec fn scanned(input: Seq<char>, format: Seq<char>) -> Seq<Seq<char>>;

/// The views of a list of tokens.
pub open spec fn token_views(tokens: Seq<String>) -> Seq<Seq<char>> {
    tokens.map_values(|token: String| token@)
}

/// Scans `input` by the pattern of a listing line with
/// `scan_fmt::parse::scan`, and collects the tokens.
///
/// Believed: the tokens depend on the input and the pattern alone. The
/// scanner indexes past the end of an input that ends in the middle of a
/// number; it never does so on an input whose last character is
/// whitespace, which is what is required here.
#[verifier::external_body]
pub(crate) fn scan(input: &str, format: &str) -> (tokens: Vec<String>)
    requires
        format@ == mount_line_format(),
        input@.len() > 0,
        scan_space(input@.last()),
    ensures
        token_views(tokens@) == scanned(input@, format@),
{
    scan_fmt::parse::scan(input, format).collect()
}

/// What a listing line's tokens say: a line has six tokens, of which the
/// second, third and fourth are numbers and the fifth is the usage in
/// decimal. The three numbers are kept as they are written.
pub open spec fn mount_line(tokens: Seq<Seq<char>>) -> Option<MountLineView> {
    if tokens.len() >= 6 && is_number(tokens[1]) && is_number(tokens[2]) && is_number(
        tokens[3],
    ) {
        match decimal_value(tokens[4]) {
            Some(usage) => Some(
                MountLineView {
                    name: tokens[0],
                    size: tokens[1],
                    used: tokens[2],
                    available: tokens[3],
                    usage,
                    mount: tokens[5],
                },
            ),
            None => None,
        }
    } else {
        None
    }
}

/// What a line of the usage listing says, if it is one: what its tokens
/// say when it is scanned with a line feed behind it, which marks its end.
pub open spec fn parsed_line(line: Seq<char>) -> Option<MountLineView> {
    mount_line(scanned(line + "\n"@, mount_line_format()))
}

/// The view of a line that was read, or of none.
pub open spec fn line_view(line: Option<MountLine>) -> Option<MountLineView> {
    match line {
        Some(line) => Some(line@),
        None => None,
    }
}

/// Puts a listing line together from its tokens.
pub fn mount_line_of(tokens: &Vec<String>) -> (line: Option<MountLine>)
    ensures
        line_view(line) == mount_line(token_views(tokens@)),
{
    if tokens.len() < 6 {
        return None;
    }
    if !is_number_text(tokens[1].as_str()) || !is_number_text(tokens[2].as_str())
        || !is_number_text(tokens[3].as_str()) {
        return None;
    }
    match parse_decimal(tokens[4].as_str()) {
        Some(usage) => Some(
            MountLine {
                name: tokens[0].clone(),
                size: tokens[1].clone(),
                used: tokens[2].clone(),
                available: tokens[3].clone(),
                usage,
                mount: tokens[5].clone(),
            },
        ),
        None => None,
    }
}

/// Reads one line of the usage listing.
pub fn parse_fs_mount_line(line: &str) -> (parsed: Option<MountLine>)
    ensures
        line_view(parsed) == parsed_line(line@),
{
    let input = line.to_owned().concat("\n");
    proof {
        reveal_strlit("\n");
        assert(input@.last() == '\n');
    }
    let tokens = scan(input.as_str(), "{} {f} {f} {f} {d}% {}");
    mount_line_of(&tokens)
}

/// The lines of `text`: the stretches between its line feeds. A text
/// without a line feed is one line.
pub open spec fn lines_of(text: Seq<char>) -> Seq<Seq<char>>
    decreases text.len(),
{
    let end = first_of(text, '\n');
    if 0 <= end < text.len() {
        seq![text.take(end)] + lines_of(text.skip(end + 1))
    } else {
        seq![text]
    }
}

/// What those of `lines` say that are lines of the usage listing, in
/// their order.
pub open spec fn mount_lines(lines: Seq<Seq<char>>) -> Seq<MountLineView>
    decreases lines.len(),
{
    if lines.len() == 0 {
        Seq::empty()
    } else {
        match parsed_line(lines.last()) {
            Some(line) => mount_lines(lines.drop_last()).push(line),
            None => mount_lines(lines.drop_last()),
        }
    }
}

/// The lines after the first, which is a heading.
pub open spec fn after_heading(lines: Seq<Seq<char>>) -> Seq<Seq<char>> {
    if lines.len() > 0 {
        lines.skip(1)
    } else {
        Seq::empty()
    }
}

/// What the usage listing says: its first line is a heading, and of the
/// others those count that are lines of the listing.
pub open spec fn mount_table(listing: Seq<char>) -> Seq<MountLineView> {
    mount_lines(after_heading(lines_of(listing)))
}

/// The views of a list of lines.
pub open spec fn line_views(lines: Seq<MountLine>) -> Seq<MountLineView> {
    lines.map_values(|line: MountLine| line@)
}

/// Adds `line` to the table, unless it is the heading or no line of the
/// listing. `done` are the lines before it.
fn add_line(
    table: &mut Vec<MountLine>,
    line: &str,
    heading: bool,
    Ghost(done): Ghost<Seq<Seq<char>>>,
)
    requires
        heading == (done.len() == 0),
        line_views(old(table)@) == mount_lines(after_heading(done)),
    ensures
        line_views(final(table)@) == mount_lines(after_heading(done.push(line@))),
{
    if heading {
        assert(after_heading(done.push(line@)) == Seq::<Seq<char>>::empty());
    } else {
        proof {
            assert(after_heading(done.push(line@)) == after_heading(done).push(line@));
            assert(after_heading(done).push(line@).drop_last() == after_heading(done));
        }
        let ghost before = table@;
        match parse_fs_mount_line(line) {
            Some(parsed) => {
                table.push(parsed);
                assert(line_views(table@) == line_views(before).push(parsed@));
            },
            None => {},
        }
    }
}

/// Reads the usage listing: every line after the heading that is a line of
/// the listing.
pub fn parse_mount_table(listing: &str) -> (table: Vec<MountLine>)
    ensures
        line_views(table@) == mount_table(listing@),
{
    let bound = char_bound(listing);
    let mut table: Vec<MountLine> = Vec::new();
    // Where the line at hand begins, and the position in the text.
    let mut start: usize = 0;
    let mut pos: usize = 0;
    let ghost mut done: Seq<Seq<char>> = Seq::empty();
    assert(listing@.skip(0) == listing@);
    assert(line_views(table@) == Seq::<MountLineView>::empty());
    for c in it: listing.chars()
        invariant
            it.seq() == listing@,
            listing@.len() <= bound,
            pos == it.index(),
            start <= pos,
            lines_of(listing@) == done + lines_of(listing@.skip(start as int)),
            line_views(table@) == mount_lines(after_heading(done)),
            forall|i: int| start <= i < pos ==> listing@[i] != '\n',
            (start == 0) == (done.len() == 0),
    {
        if c == '\n' {
            let ghost line = listing@.subrange(start as int, pos as int);
            proof {
                lemma_stretch(listing@, '\n', start as int, pos as int);
                assert(done + (seq![line] + lines_of(listing@.skip(pos + 1))) == done.push(line)
                    + lines_of(listing@.skip(pos + 1)));
            }
            add_line(&mut table, listing.substring_char(start, pos), start == 0, Ghost(done));
            start = pos + 1;
            proof {
                done = done.push(line);
            }
        }
        pos += 1;
    }
    proof {
        lemma_stretch(listing@, '\n', start as int, pos as int);
        assert(listing@.skip(start as int).take(pos - start) == listing@.skip(start as int));
        assert(done + seq![listing@.subrange(start as int, pos as int)] == done.push(
            listing@.subrange(start as int, pos as int),
        ));
    }
    add_line(&mut table, listing.substring_char(start, pos), start == 0, Ghost(done));
    table
}

/// One mounted file system, as the usage listing reports it. The three
/// sizes are held as the decimal text of their figure in GiB, the usage as
/// a percentage.
#[derive(Debug, PartialEq, Eq)]
pub struct MountInfo {
    pub name: String,
    pub size: String,
    pub used: String,
    pub available: String,
    pub usage: u32,
    pub mount: String,
}

/// The mathematical content of a [`MountInfo`].
pub struct MountInfoView {
    pub name: Seq<char>,
    pub size: Seq<char>,
    pub used: Seq<char>,
    pub available: Seq<char>,
    pub usage: u32,
    pub mount: Seq<char>,
}

impl View for MountInfo {
    type V = MountInfoView;

    open spec fn view(&self) -> MountInfoView {
        MountInfoView {
            name: self.name@,
            size: self.size@,
            used: self.used@,
            available: self.available@,
            usage: self.usage,
            mount: self.mount@,
        }
    }
}

/// The table of mounted file systems, in the listing's order.
#[derive(Debug, PartialEq, Eq)]
pub struct FileSystemInfo {
    pub mounts: Vec<MountInfo>,
}

impl View for FileSystemInfo {
    type V = Seq<MountInfoView>;

    open spec fn view(&self) -> Seq<MountInfoView> {
        self.mounts@.map_values(|info: MountInfo| info@)
    }
}

/// The position of the first entry of `table` that is mounted at `mount`.
pub open spec fn mount_position(table: Seq<MountInfoView>, mount: Seq<char>) -> Option<int>
    decreases table.len(),
{
    if table.len() == 0 {
        None
    } else if table[0].mount == mount {
        Some(0)
    } else {
        match mount_position(table.skip(1), mount) {
            Some(at) => Some(at + 1),
            None => None,
        }
    }
}

/// The first entry of `table` that is mounted at `mount`.
pub open spec fn mount_entry(table: Seq<MountInfoView>, mount: Seq<char>) -> Option<MountInfoView> {
    match mount_position(table, mount) {
        Some(at) => Some(table[at]),
        None => None,
    }
}

/// [`mount_position`] is the least position with that mount point, and
/// `None` only where no entry has it.
pub proof fn lemma_mount_position(table: Seq<MountInfoView>, mount: Seq<char>)
    ensures
        match mount_position(table, mount) {
            Some(at) => {
                &&& 0 <= at < table.len()
                &&& table[at].mount == mount
                &&& forall|i: int| 0 <= i < at ==> table[i].mount != mount
            },
            None => forall|i: int| 0 <= i < table.len() ==> table[i].mount != mount,
        },
    decreases table.len(),
{
    if table.len() > 0 && table[0].mount != mount {
        let rest = table.skip(1);
        lemma_mount_position(rest, mount);
        match mount_position(rest, mount) {
            Some(at) => {
                assert forall|i: int| 0 <= i < at + 1 implies table[i].mount != mount by {
                    if i > 0 {
                        assert(rest[i - 1] == table[i]);
                    }
                }
            },
            None => {
                assert forall|i: int| 0 <= i < table.len() implies table[i].mount != mount by {
                    if i > 0 {
                        assert(rest[i - 1] == table[i]);
                    }
                }
            },
        }
    }
}

proof fn lemma_first_match(table: Seq<MountInfoView>, mount: Seq<char>, at: int)
    requires
        0 <= at <= table.len(),
        forall|i: int| 0 <= i < at ==> table[i].mount != mount,
        at == table.len() || table[at].mount == mount,
    ensures
        mount_position(table, mount) == if at < table.len() {
            Some(at)
        } else {
            None
        },
{
    lemma_mount_position(table, mount);
}

impl FileSystemInfo {
    /// The position of the first entry mounted at `mount`, if there is one.
    pub fn find(&self, mount: &str) -> (found: Option<usize>)
        ensures
            found matches Some(at) ==> at < self.mounts@.len(),
            match found {
                Some(at) => Some(at as int),
                None => None,
            } == mount_position(self@, mount@),
    {
        let wanted = mount.to_owned();
        let mut at: usize = 0;
        while at < self.mounts.len()
            invariant
                at <= self.mounts@.len(),
                wanted@ == mount@,
                forall|i: int| 0 <= i < at ==> self@[i].mount != mount@,
            decreases self.mounts@.len() - at,
        {
            if self.mounts[at].mount == wanted {
                proof {
                    lemma_first_match(self@, mount@, at as int);
                }
                return Some(at);
            }
            at += 1;
        }
        proof {
            lemma_first_match(self@, mount@, at as int);
        }
        None
    }
}

} // verus!
