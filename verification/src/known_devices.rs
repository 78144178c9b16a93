//! The file of devices that Android Auto once worked with: one address a line.

use crate::address;
use crate::address::BtAddress;
use crate::text;
use vstd::prelude::*;
use vstd::string::StringExecFns;

verus! {

/// The device that a line names, if it names one.
pub open spec fn device_in_line(line: Seq<char>) -> Option<BtAddress> {
    match address::named_address(text::trimmed(line)) {
        Some(a) => if a != address::any_address() {
            Some(a)
        } else {
            None
        },
        None => None,
    }
}

pub open spec fn devices_in(lines: Seq<Seq<char>>) -> Seq<BtAddress>
    decreases lines.len(),
{
    if lines.len() == 0 {
        Seq::empty()
    } else {
        let before = devices_in(lines.drop_last());
        match device_in_line(lines.last()) {
            Some(a) => before.push(a),
            None => before,
        }
    }
}

/// The devices that a file names, in its order. Lines that name none are
/// passed over.
pub open spec fn known_devices(contents: Seq<char>) -> Seq<BtAddress> {
    devices_in(text::lines_of(contents))
}

proof fn lemma_empty_text_is_no_address()
    ensures
        address::named_address(Seq::<char>::empty()) is None,
{
    assert(text::pieces(Seq::<char>::empty(), ':').len() == 1);
}

/// Reads the devices out of the file's contents.
pub fn load_known_devices(contents: &str) -> (r: Vec<BtAddress>)
    ensures
        r@ == known_devices(contents@),
{
    let lines = text::lines(contents);
    let ghost l = text::lines_of(contents@);
    let mut out: Vec<BtAddress> = Vec::new();
    assert(l.take(0) =~= Seq::<Seq<char>>::empty());
    for i in 0..lines.len()
        invariant
            l == lines.deep_view(),
            out@ == devices_in(l.take(i as int)),
    {
        let ghost t = l.take(i as int + 1);
        assert(t.drop_last() =~= l.take(i as int));
        assert(t.last() == lines@[i as int]@);
        let line = text::trim(lines[i].as_str());
        if line.is_empty() {
            proof {
                lemma_empty_text_is_no_address();
                assert(line@ =~= Seq::<char>::empty());
            }
        } else {
            match address::parse_address(line) {
                Some(a) => {
                    if a != BtAddress::any() {
                        out.push(a);
                    }
                },
                None => {},
            }
        }
    }
    assert(l.take(l.len() as int) =~= l);
    out
}

// ---------------------------------------------------------------------
// Removing

/// Whether a line holds the text that is looked for, in either case of letters.
pub open spec fn line_is(line: Seq<char>, target: Seq<char>) -> bool {
    text::trimmed(line).len() > 0 && text::lower(text::trimmed(line)) == text::lower(target)
}

/// The lines that stay when one is removed, without white space around them.
pub open spec fn kept_lines(lines: Seq<Seq<char>>, target: Seq<char>) -> Seq<Seq<char>>
    decreases lines.len(),
{
    if lines.len() == 0 {
        Seq::empty()
    } else {
        let before = kept_lines(lines.drop_last(), target);
        if text::trimmed(lines.last()).len() == 0 || line_is(lines.last(), target) {
            before
        } else {
            before.push(text::trimmed(lines.last()))
        }
    }
}

/// What becomes of the file.
pub enum Removal<T> {
    /// The device is not in it.
    NotFound,
    /// Nothing else is in it.
    DeleteFile,
    /// The rest is written back.
    Rewrite(T),
}

impl View for Removal<String> {
    type V = Removal<Seq<char>>;

    open spec fn view(&self) -> Removal<Seq<char>> {
        match *self {
            Removal::NotFound => Removal::NotFound,
            Removal::DeleteFile => Removal::DeleteFile,
            Removal::Rewrite(s) => Removal::Rewrite(s@),
        }
    }
}

pub open spec fn has_line(lines: Seq<Seq<char>>, target: Seq<char>) -> bool {
    exists|i: int| 0 <= i < lines.len() && line_is(#[trigger] lines[i], target)
}

pub open spec fn removal(contents: Seq<char>, mac: Seq<char>) -> Removal<Seq<char>> {
    let target = text::trimmed(mac);
    let lines = text::lines_of(contents);
    let kept = kept_lines(lines, target);
    if !has_line(lines, target) {
        Removal::NotFound
    } else if kept.len() == 0 {
        Removal::DeleteFile
    } else {
        Removal::Rewrite(text::joined(kept, "\n"@).push('\n'))
    }
}

/// Removes a device from the file's contents.
pub fn remove_known_device_entry(contents: &str, mac: &str) -> (r: Removal<String>)
    ensures
        r@ == removal(contents@, mac@),
{
    let target = text::trim(mac);
    let lines = text::lines(contents);
    let ghost l = text::lines_of(contents@);
    let mut removed = false;
    let mut remaining: Vec<String> = Vec::new();
    assert(l.take(0) =~= Seq::<Seq<char>>::empty());
    assert(remaining.deep_view() =~= Seq::<Seq<char>>::empty());
    for i in 0..lines.len()
        invariant
            l == lines.deep_view(),
            remaining.deep_view() == kept_lines(l.take(i as int), target@),
            removed == has_line(l.take(i as int), target@),
    {
        let ghost b = l.take(i as int);
        let ghost t = l.take(i as int + 1);
        assert(t.drop_last() =~= b);
        assert(t.last() == lines@[i as int]@);
        let line = text::trim(lines[i].as_str());
        let ghost found = line_is(t.last(), target@);
        if !line.is_empty() {
            if text::eq_ignore_ascii_case(line, target) {
                removed = true;
            } else {
                text::push_text(&mut remaining, line);
            }
        }
        proof {
            if has_line(b, target@) {
                let k = choose|k: int| 0 <= k < b.len() && line_is(#[trigger] b[k], target@);
                assert(line_is(t[k], target@));
            }
            if found {
                assert(line_is(t[i as int], target@));
            }
            if has_line(t, target@) {
                let k = choose|k: int| 0 <= k < t.len() && line_is(#[trigger] t[k], target@);
                if k < i {
                    assert(line_is(b[k], target@));
                }
            }
        }
    }
    assert(l.take(l.len() as int) =~= l);
    if !removed {
        return Removal::NotFound;
    }
    if remaining.len() == 0 {
        Removal::DeleteFile
    } else {
        let mut text = text::join(&remaining, "\n");
        text.push('\n');
        Removal::Rewrite(text)
    }
}

// ---------------------------------------------------------------------
// Adding

/// The line that is added to the file for a device, unless it names it already.
pub open spec fn added_line(contents: Seq<char>, addr: BtAddress) -> Option<Seq<char>> {
    if addr == address::any_address() || known_devices(contents).contains(addr) {
        None
    } else {
        Some(address::address_text(addr).push('\n'))
    }
}

fn holds_device(list: &Vec<BtAddress>, addr: BtAddress) -> (r: bool)
    ensures
        r == list@.contains(addr),
{
    for i in 0..list.len()
        invariant
            forall|j: int| 0 <= j < i ==> list@[j] != addr,
    {
        if list[i] == addr {
            assert(list@[i as int] == addr);
            return true;
        }
    }
    false
}

pub fn save_known_device(contents: &str, addr: BtAddress) -> (r: Option<String>)
    ensures
        r.deep_view() == added_line(contents@, addr),
{
    if addr == BtAddress::any() {
        return None;
    }
    let known = load_known_devices(contents);
    if holds_device(&known, addr) {
        return None;
    }
    let mut line = addr.to_text();
    line.push('\n');
    Some(line)
}

// ---------------------------------------------------------------------
// Laws

proof fn lemma_kept(lines: Seq<Seq<char>>, target: Seq<char>)
    ensures
        forall|i: int|
            0 <= i < kept_lines(lines, target).len() ==> {
                let line = #[trigger] kept_lines(lines, target)[i];
                text::lower(line) != text::lower(target) && line.len() > 0
            },
        forall|i: int|
            0 <= i < lines.len() && text::trimmed(#[trigger] lines[i]).len() > 0 && !line_is(
                lines[i],
                target,
            ) ==> kept_lines(lines, target).contains(text::trimmed(lines[i])),
    decreases lines.len(),
{
    if lines.len() > 0 {
        let head = lines.drop_last();
        lemma_kept(head, target);
        let before = kept_lines(head, target);
        let after = kept_lines(lines, target);
        assert forall|i: int|
            0 <= i < lines.len() && text::trimmed(#[trigger] lines[i]).len() > 0 && !line_is(
                lines[i],
                target,
            ) implies after.contains(text::trimmed(lines[i])) by {
            if i < head.len() {
                assert(head[i] == lines[i]);
                assert(before.contains(text::trimmed(head[i])));
                let k = choose|k: int| 0 <= k < before.len() && before[k] == text::trimmed(head[i]);
                assert(after[k] == before[k]);
            } else {
                assert(after[before.len() as int] == text::trimmed(lines[i]));
            }
        }
    }
}

/// Removing takes every line with the device's text out and keeps every other
/// line that holds anything.
pub proof fn law_removal_takes_only_the_device(contents: Seq<char>, mac: Seq<char>)
    ensures
        ({
            let lines = text::lines_of(contents);
            let target = text::trimmed(mac);
            let kept = kept_lines(lines, target);
            &&& forall|i: int|
                0 <= i < kept.len() ==> text::lower(#[trigger] kept[i]) != text::lower(target)
            &&& forall|i: int|
                0 <= i < lines.len() && text::trimmed(#[trigger] lines[i]).len() > 0 && !line_is(
                    lines[i],
                    target,
                ) ==> kept.contains(text::trimmed(lines[i]))
        }),
{
    lemma_kept(text::lines_of(contents), text::trimmed(mac));
}

proof fn lemma_pieces_of_line(s: Seq<char>, line: Seq<char>)
    requires
        forall|i: int| 0 <= i < line.len() ==> line[i] != '\n',
        s.len() == 0 || s.last() == '\n',
    ensures
        text::pieces(s + line, '\n') == text::pieces(s, '\n').drop_last().push(line),
        text::pieces(s, '\n').last().len() == 0,
    decreases line.len(),
{
    let base = text::pieces(s, '\n');
    text::lemma_pieces_nonempty(s, '\n');
    if line.len() == 0 {
        assert(s + line =~= s);
        assert(base.last() =~= line);
        assert(base.drop_last().push(line) =~= base);
    } else {
        let head = line.drop_last();
        assert forall|i: int| 0 <= i < head.len() implies head[i] != '\n' by {
            assert(head[i] == line[i]);
        }
        lemma_pieces_of_line(s, head);
        assert((s + line).drop_last() =~= s + head);
        assert((s + line).last() == line.last());
        assert(line[line.len() - 1] != '\n');
        let p = text::pieces(s + head, '\n');
        assert(p.drop_last() =~= base.drop_last());
        assert(p.last() == head);
        assert(head.push(line.last()) =~= line);
    }
}

proof fn lemma_address_line(a: BtAddress)
    ensures
        forall|i: int|
            0 <= i < address::address_text(a).len() ==> {
                let c = #[trigger] address::address_text(a)[i];
                c != '\n' && c != '\r' && !text::is_space(c)
            },
        address::address_text(a).len() == 17,
        text::trimmed(address::address_text(a)) == address::address_text(a),
{
    let t = address::address_text(a);
    assert forall|i: int| 0 <= i < t.len() implies {
        let c = #[trigger] t[i];
        c != '\n' && c != '\r' && !text::is_space(c)
    } by {}
    assert(!text::is_space(t[0]));
    assert(!text::is_space(t[16]));
}

/// What was added is read back, behind all that was there; and adding it once
/// more adds nothing.
pub proof fn law_saved_device_is_known(contents: Seq<char>, addr: BtAddress)
    requires
        contents.len() == 0 || contents.last() == '\n',
        added_line(contents, addr) is Some,
    ensures
        known_devices(contents + added_line(contents, addr)->0) == known_devices(contents).push(
            addr,
        ),
        added_line(contents + added_line(contents, addr)->0, addr) is None,
{
    let line = address::address_text(addr);
    let added = line.push('\n');
    let all = contents + added;
    lemma_address_line(addr);
    lemma_pieces_of_line(contents, line);
    assert(all.drop_last() =~= contents + line);
    let base = text::pieces(contents, '\n');
    text::lemma_pieces_nonempty(contents, '\n');
    let p = text::pieces(all, '\n');
    assert(p == base.drop_last().push(line).push(Seq::<char>::empty()));
    assert(p.drop_last() =~= base.drop_last().push(line));
    let f = |l: Seq<char>| text::without_return(l);
    assert(line.last() == line[16]);
    assert(text::without_return(line) == line);
    assert(p.drop_last().map_values(f) =~= base.drop_last().map_values(f).push(line));
    assert(text::lines_of(contents) == base.drop_last().map_values(f));
    assert(text::lines_of(all) == text::lines_of(contents).push(line));
    assert(text::lines_of(all).drop_last() =~= text::lines_of(contents));
    address::law_address_round_trip(addr);
    assert(known_devices(all) == known_devices(contents).push(addr));
    assert(known_devices(all)[known_devices(contents).len() as int] == addr);
}

// ---------------------------------------------------------------------
// Line by line

/// Lines, each with a line feed behind it.
pub open spec fn file_of(lines: Seq<Seq<char>>) -> Seq<char>
    decreases lines.len(),
{
    if lines.len() == 0 {
        Seq::empty()
    } else {
        file_of(lines.drop_last()) + lines.last() + seq!['\n']
    }
}

/// Lines that can stand in a file as they are.
pub open spec fn are_lines(lines: Seq<Seq<char>>) -> bool {
    &&& forall|i: int, j: int|
        0 <= i < lines.len() && 0 <= j < lines[i].len() ==> #[trigger] lines[i][j] != '\n'
    &&& forall|i: int|
        0 <= i < lines.len() && (#[trigger] lines[i]).len() > 0 ==> lines[i].last() != '\r'
}

/// A file that is written line by line is read line by line.
pub proof fn law_lines_are_read_back(lines: Seq<Seq<char>>)
    requires
        are_lines(lines),
    ensures
        text::lines_of(file_of(lines)) == lines,
        file_of(lines).len() == 0 || file_of(lines).last() == '\n',
    decreases lines.len(),
{
    let f = |l: Seq<char>| text::without_return(l);
    if lines.len() == 0 {
        let p = text::pieces(Seq::<char>::empty(), '\n');
        assert(p.drop_last().map_values(f) =~= lines);
    } else {
        let head = lines.drop_last();
        let line = lines.last();
        assert(line == lines[lines.len() - 1]);
        assert(are_lines(head)) by {
            assert forall|i: int, j: int| 0 <= i < head.len() && 0 <= j < head[i].len() implies
                #[trigger] head[i][j] != '\n' by {
                assert(lines[i][j] != '\n');
            }
            assert forall|i: int| 0 <= i < head.len() && (#[trigger] head[i]).len() > 0 implies
                head[i].last() != '\r' by {
                assert(lines[i] == head[i]);
            }
        }
        law_lines_are_read_back(head);
        let s = file_of(head);
        let all = file_of(lines);
        assert forall|i: int| 0 <= i < line.len() implies line[i] != '\n' by {
            assert(lines[lines.len() - 1][i] != '\n');
        }
        lemma_pieces_of_line(s, line);
        assert(all.drop_last() =~= s + line);
        let base = text::pieces(s, '\n');
        text::lemma_pieces_nonempty(s, '\n');
        let p = text::pieces(all, '\n');
        assert(p == base.drop_last().push(line).push(Seq::<char>::empty()));
        assert(p.drop_last() =~= base.drop_last().push(line));
        assert(text::without_return(line) == line);
        assert(p.drop_last().map_values(f) =~= base.drop_last().map_values(f).push(line));
        assert(text::lines_of(s) == base.drop_last().map_values(f));
        assert(text::lines_of(all) =~= head.push(line));
        assert(head.push(line) =~= lines);
    }
}

/// Every line is read on its own: one that names a device, white space around
/// it apart, adds that device; one that names none, or the address of zeros,
/// adds nothing.
pub proof fn law_each_line_names_its_device(lines: Seq<Seq<char>>, line: Seq<char>)
    requires
        are_lines(lines.push(line)),
    ensures
        ({
            let before = known_devices(file_of(lines));
            let after = known_devices(file_of(lines.push(line)));
            match address::named_address(text::trimmed(line)) {
                Some(a) => after == (if a.b0 == 0 && a.b1 == 0 && a.b2 == 0 && a.b3 == 0 && a.b4
                    == 0 && a.b5 == 0 {
                    before
                } else {
                    before.push(a)
                }),
                None => after == before,
            }
        }),
        known_devices(Seq::empty()).len() == 0,
{
    let more = lines.push(line);
    assert(are_lines(lines)) by {
        assert forall|i: int, j: int| 0 <= i < lines.len() && 0 <= j < lines[i].len() implies
            #[trigger] lines[i][j] != '\n' by {
            assert(more[i][j] != '\n');
        }
        assert forall|i: int| 0 <= i < lines.len() && (#[trigger] lines[i]).len() > 0 implies
            lines[i].last() != '\r' by {
            assert(more[i] == lines[i]);
        }
    }
    law_lines_are_read_back(more);
    law_lines_are_read_back(lines);
    assert(more.drop_last() =~= lines);
    law_lines_are_read_back(Seq::empty());
}

proof fn lemma_kept_lines_stand(lines: Seq<Seq<char>>, target: Seq<char>)
    requires
        forall|i: int, j: int|
            0 <= i < lines.len() && 0 <= j < lines[i].len() ==> #[trigger] lines[i][j] != '\n',
    ensures
        are_lines(kept_lines(lines, target)),
        forall|i: int|
            0 <= i < kept_lines(lines, target).len() ==> text::trimmed(
                #[trigger] kept_lines(lines, target)[i],
            ) == kept_lines(lines, target)[i],
    decreases lines.len(),
{
    if lines.len() > 0 {
        let head = lines.drop_last();
        assert forall|i: int, j: int| 0 <= i < head.len() && 0 <= j < head[i].len() implies
            #[trigger] head[i][j] != '\n' by {
            assert(lines[i][j] != '\n');
        }
        lemma_kept_lines_stand(head, target);
        let before = kept_lines(head, target);
        let line = lines.last();
        let t = text::trimmed(line);
        let (from, to) = text::law_trimming_takes_only_white_space(line);
        let after = kept_lines(lines, target);
        if t.len() > 0 {
            assert forall|j: int| 0 <= j < t.len() implies #[trigger] t[j] != '\n' by {
                assert(t[j] == line[from + j]);
                assert(lines[lines.len() - 1][from + j] != '\n');
            }
            let (f2, t2) = text::law_trimming_takes_only_white_space(t);
            assert(f2 == 0) by {
                if f2 > 0 {
                    assert(text::is_space(t[0]));
                }
            }
            assert(t2 == t.len()) by {
                if t2 < t.len() {
                    assert(text::is_space(t[t.len() - 1]));
                }
            }
            assert(t.subrange(0, t.len() as int) =~= t);
            assert forall|i: int, j: int| 0 <= i < after.len() && 0 <= j < after[i].len() implies
                #[trigger] after[i][j] != '\n' by {
                if i < before.len() {
                    assert(after[i] == before[i]);
                    assert(before[i][j] != '\n');
                } else {
                    assert(after[i] == t);
                }
            }
            assert forall|i: int| 0 <= i < after.len() && (#[trigger] after[i]).len() > 0 implies
                after[i].last() != '\r' by {
                if i < before.len() {
                    assert(after[i] == before[i]);
                } else {
                    assert(after[i] == t);
                }
            }
            assert forall|i: int| 0 <= i < after.len() implies text::trimmed(#[trigger] after[i])
                == after[i] by {
                if i < before.len() {
                    assert(after[i] == before[i]);
                }
            }
        }
    }
}

proof fn lemma_kept_is_file(kept: Seq<Seq<char>>)
    requires
        kept.len() > 0,
    ensures
        text::joined(kept, "\n"@).push('\n') == file_of(kept),
    decreases kept.len(),
{
    reveal_strlit("\n");
    assert("\n"@ =~= seq!['\n']);
    if kept.len() == 1 {
        assert(kept.drop_last() =~= Seq::<Seq<char>>::empty());
        assert(file_of(kept.drop_last()) =~= Seq::<char>::empty());
        assert(text::joined(kept, "\n"@).push('\n') =~= file_of(kept));
    } else {
        lemma_kept_is_file(kept.drop_last());
        assert(text::joined(kept, "\n"@).push('\n') =~= file_of(kept));
    }
}

proof fn lemma_lines_hold_no_feed(contents: Seq<char>)
    ensures
        forall|i: int, j: int|
            0 <= i < text::lines_of(contents).len() && 0 <= j < text::lines_of(contents)[i].len()
                ==> #[trigger] text::lines_of(contents)[i][j] != '\n',
{
    let p = text::pieces(contents, '\n');
    let lines = text::lines_of(contents);
    text::lemma_pieces_nonempty(contents, '\n');
    text::law_pieces_are_the_text(contents, '\n');
    assert forall|i: int, j: int| 0 <= i < lines.len() && 0 <= j < lines[i].len() implies
        #[trigger] lines[i][j] != '\n' by {
        if i < p.len() - 1 {
            assert(lines[i] == text::without_return(p[i]));
            assert(lines[i][j] == p[i][j]);
        } else {
            assert(lines[i] == p[i]);
            assert(p[i][j] != '\n');
        }
    }
}

/// What is written back reads as the lines that stay, in their order and
/// without white space around them; the device that was removed is not found in
/// it a second time.
pub proof fn law_removed_device_is_gone(contents: Seq<char>, mac: Seq<char>)
    ensures
        ({
            let lines = text::lines_of(contents);
            let after = removal(contents, mac);
            &&& (after is NotFound <==> forall|i: int|
                0 <= i < lines.len() ==> text::trimmed(#[trigger] lines[i]).len() == 0
                    || text::lower(text::trimmed(lines[i])) != text::lower(text::trimmed(mac)))
            &&& (after is Rewrite ==> text::lines_of(after->Rewrite_0) == kept_lines(
                lines,
                text::trimmed(mac),
            ) && text::lines_of(after->Rewrite_0).len() > 0)
            &&& (after is Rewrite ==> removal(after->Rewrite_0, mac) is NotFound)
        }),
{
    let lines = text::lines_of(contents);
    let target = text::trimmed(mac);
    let kept = kept_lines(lines, target);
    lemma_lines_hold_no_feed(contents);
    lemma_kept_lines_stand(lines, target);
    lemma_kept(lines, target);
    if removal(contents, mac) is Rewrite {
        lemma_kept_is_file(kept);
        law_lines_are_read_back(kept);
        assert(removal(contents, mac)->Rewrite_0 == file_of(kept));
        assert(!has_line(kept, target)) by {
            if has_line(kept, target) {
                let i = choose|i: int| 0 <= i < kept.len() && line_is(#[trigger] kept[i], target);
                assert(text::trimmed(kept[i]) == kept[i]);
            }
        }
    }
    if !(removal(contents, mac) is NotFound) {
        let i = choose|i: int| 0 <= i < lines.len() && line_is(#[trigger] lines[i], target);
        assert(line_is(lines[i], target));
    } else {
        assert forall|i: int| 0 <= i < lines.len() implies text::trimmed(#[trigger] lines[i]).len()
            == 0 || text::lower(text::trimmed(lines[i])) != text::lower(target) by {
            assert(!line_is(lines[i], target));
        }
    }
}

/// Each line is kept or not on its own: an empty one and the one that is looked
/// for, in either case of letters, go; every other one stays, at its place.
pub proof fn law_each_line_stays_or_goes(
    before: Seq<Seq<char>>,
    line: Seq<char>,
    behind: Seq<Seq<char>>,
    target: Seq<char>,
)
    ensures
        ({
            let t = text::trimmed(line);
            let goes = t.len() == 0 || text::lower(t) == text::lower(target);
            kept_lines(before + seq![line] + behind, target) == kept_lines(before, target) + (
            if goes {
                Seq::<Seq<char>>::empty()
            } else {
                seq![t]
            }) + kept_lines(behind, target)
        }),
    decreases behind.len(),
{
    let all = before + seq![line] + behind;
    if behind.len() == 0 {
        assert(all.drop_last() =~= before);
        assert(all.last() == line);
        assert(kept_lines(behind, target) =~= Seq::<Seq<char>>::empty());
    } else {
        law_each_line_stays_or_goes(before, line, behind.drop_last(), target);
        assert(all.drop_last() =~= before + seq![line] + behind.drop_last());
        assert(all.last() == behind.last());
    }
}

/// A file with nothing left is deleted.
pub proof fn law_empty_file_is_deleted(contents: Seq<char>, mac: Seq<char>)
    ensures
        ({
            let lines = text::lines_of(contents);
            removal(contents, mac) is DeleteFile ==> forall|i: int|
                0 <= i < lines.len() ==> text::trimmed(#[trigger] lines[i]).len() == 0
                    || text::lower(text::trimmed(lines[i])) == text::lower(text::trimmed(mac))
        }),
{
    let lines = text::lines_of(contents);
    let target = text::trimmed(mac);
    lemma_kept(lines, target);
    if removal(contents, mac) is DeleteFile {
        assert forall|i: int| 0 <= i < lines.len() implies text::trimmed(#[trigger] lines[i]).len()
            == 0 || text::lower(text::trimmed(lines[i])) == text::lower(target) by {
            if text::trimmed(lines[i]).len() > 0 && !line_is(lines[i], target) {
                assert(kept_lines(lines, target).contains(text::trimmed(lines[i])));
            }
        }
    }
}

/// A device is added where it is a device and the file does not name it yet.
pub proof fn law_device_is_added_once(contents: Seq<char>, addr: BtAddress)
    ensures
        added_line(contents, addr) is None <==> (addr.b0 == 0 && addr.b1 == 0 && addr.b2 == 0
            && addr.b3 == 0 && addr.b4 == 0 && addr.b5 == 0) || known_devices(contents).contains(
            addr,
        ),
        added_line(contents, addr) is Some ==> added_line(contents, addr)->0
            == address::address_text(addr) + seq!['\n'],
{
    assert(address::address_text(addr).push('\n') =~= address::address_text(addr) + seq!['\n']);
}

} // verus!
