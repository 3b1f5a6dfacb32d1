use vstd::prelude::*;
use vstd::string::*;
use crate::adb::texts;
use crate::cli_args::opt_string_text;
use crate::session::{decode_lossy, utf8_lossy};
use crate::text::{
    find, find_from, lemma_find_is_first, lemma_split_lines_nonempty, lemma_split_lines_push,
    split_lines, to_chars,
};

verus! {

/// The serial on a line of a device listing (`<serial>\t<state>`, as
/// `adb devices` prints it), where the state is `device`: the device is ready.
pub open spec fn ready_serial(line: Seq<char>) -> Option<Seq<char>> {
    match find(line, "\t"@) {
        Some(i) => if line.skip(i + 1) == "device"@ {
            Some(line.take(i))
        } else {
            None
        },
        None => None,
    }
}

/// The serials of the ready devices on `lines`, in order.
pub open spec fn ready_serials(lines: Seq<Seq<char>>) -> Seq<Seq<char>>
    decreases lines.len(),
{
    if lines.len() == 0 {
        seq![]
    } else {
        let init = ready_serials(lines.drop_last());
        match ready_serial(lines.last()) {
            Some(serial) => init.push(serial),
            None => init,
        }
    }
}

/// The serials of the ready devices in a device listing.
pub open spec fn ready_devices(listing: Seq<char>) -> Seq<Seq<char>> {
    ready_serials(split_lines(listing))
}

/// The serials of `ready` that are not in `known`, in order.
pub open spec fn newly_ready(ready: Seq<Seq<char>>, known: Seq<Seq<char>>) -> Seq<Seq<char>>
    decreases ready.len(),
{
    if ready.len() == 0 {
        seq![]
    } else {
        let init = newly_ready(ready.drop_last(), known);
        if known.contains(ready.last()) {
            init
        } else {
            init.push(ready.last())
        }
    }
}

/// A device is reported exactly when it is ready now and was not ready
/// before.
pub proof fn lemma_newly_ready_exact(ready: Seq<Seq<char>>, known: Seq<Seq<char>>, serial: Seq<char>)
    ensures
        newly_ready(ready, known).contains(serial) <==> (ready.contains(serial) && !known.contains(
            serial,
        )),
    decreases ready.len(),
{
    if ready.len() > 0 {
        let init = ready.drop_last();
        lemma_newly_ready_exact(init, known, serial);
        let prev = newly_ready(init, known);
        assert(ready == init.push(ready.last()));
        if ready.contains(serial) {
            let i = choose|i: int| 0 <= i < ready.len() && ready[i] == serial;
            if i < init.len() {
                assert(init[i] == serial);
            }
        }
        if init.contains(serial) {
            let i = choose|i: int| 0 <= i < init.len() && init[i] == serial;
            assert(ready[i] == serial);
        }
        if !known.contains(ready.last()) {
            let next = prev.push(ready.last());
            assert(next[prev.len() as int] == ready.last());
            if next.contains(serial) {
                let i = choose|i: int| 0 <= i < next.len() && next[i] == serial;
                if i < prev.len() {
                    assert(prev[i] == serial);
                }
            }
            if prev.contains(serial) {
                let i = choose|i: int| 0 <= i < prev.len() && prev[i] == serial;
                assert(next[i] == serial);
            }
        }
        assert(ready[ready.len() - 1] == ready.last());
    }
}

/// A line reports the device `s` as ready exactly when it is `s`, a tab, and
/// `device`, where `s` holds no tab.
pub proof fn lemma_ready_line(line: Seq<char>, s: Seq<char>)
    ensures
        ready_serial(line) == Some(s) <==> (line == s + "\t"@ + "device"@ && !s.contains('\t')),
{
    reveal_strlit("\t");
    lemma_find_is_first(line, "\t"@);
    if ready_serial(line) == Some(s) {
        let i = find(line, "\t"@)->Some_0;
        assert(crate::text::occurs_at(line, "\t"@, i));
        assert(line.subrange(i, i + 1) =~= seq!['\t']);
        assert(line[i] == line.subrange(i, i + 1)[0]);
        assert(line =~= line.take(i) + "\t"@ + line.skip(i + 1));
        if s.contains('\t') {
            let j = choose|j: int| 0 <= j < s.len() && s[j] == '\t';
            assert(line.subrange(j, j + 1) =~= "\t"@);
            assert(crate::text::occurs_at(line, "\t"@, j));
        }
    }
    if line == s + "\t"@ + "device"@ && !s.contains('\t') {
        let k = s.len() as int;
        assert(line.subrange(k, k + 1) =~= "\t"@);
        assert(crate::text::occurs_at(line, "\t"@, k));
        assert forall|j: int| 0 <= j < k implies !crate::text::occurs_at(line, "\t"@, j) by {
            if crate::text::occurs_at(line, "\t"@, j) {
                assert(line.subrange(j, j + 1)[0] == line[j]);
                assert(line[j] == s[j]);
                assert(s.contains('\t'));
            }
        }
        assert(crate::text::first_occurrence(line, "\t"@, k));
        crate::text::lemma_first_occurrence_unique(line, "\t"@, find(line, "\t"@)->Some_0, k);
        assert(line.skip(k + 1) =~= "device"@);
        assert(line.take(k) =~= s);
    }
}

/// The ready serials are those of the lines that report a ready device,
/// every such line counting.
pub proof fn lemma_ready_serials_of_lines(lines: Seq<Seq<char>>, s: Seq<char>)
    ensures
        ready_serials(lines).contains(s) <==> exists|i: int|
            0 <= i < lines.len() && ready_serial(#[trigger] lines[i]) == Some(s),
    decreases lines.len(),
{
    if lines.len() > 0 {
        let init = lines.drop_last();
        lemma_ready_serials_of_lines(init, s);
        let prev = ready_serials(init);
        let last = lines.last();
        if exists|i: int| 0 <= i < lines.len() && ready_serial(#[trigger] lines[i]) == Some(s) {
            let i = choose|i: int| 0 <= i < lines.len() && ready_serial(#[trigger] lines[i]) == Some(s);
            if i < init.len() {
                assert(init[i] == lines[i]);
                let k = choose|k: int| 0 <= k < prev.len() && prev[k] == s;
                if let Some(t) = ready_serial(last) {
                    assert(prev.push(t)[k] == s);
                }
            } else {
                assert(lines[i] == last);
                assert(prev.push(s)[prev.len() as int] == s);
            }
        }
        if ready_serials(lines).contains(s) {
            let k = choose|k: int| 0 <= k < ready_serials(lines).len() && ready_serials(lines)[k] == s;
            if k < prev.len() {
                assert(prev[k] == s);
                let i = choose|i: int| 0 <= i < init.len() && ready_serial(#[trigger] init[i]) == Some(s);
                assert(lines[i] == init[i]);
            } else {
                assert(lines[lines.len() - 1] == last);
            }
        }
    }
}

/// A listing reports the device `s` as ready exactly when one of its lines,
/// any of them, is `s`, a tab, and `device`, where `s` holds no tab.
pub proof fn lemma_ready_devices_of_listing(listing: Seq<char>, s: Seq<char>)
    ensures
        ready_devices(listing).contains(s) <==> (!s.contains('\t') && exists|i: int|
            0 <= i < split_lines(listing).len() && #[trigger] split_lines(listing)[i] == s
                + "\t"@ + "device"@),
{
    let lines = split_lines(listing);
    lemma_ready_serials_of_lines(lines, s);
    if ready_devices(listing).contains(s) {
        let i = choose|i: int| 0 <= i < lines.len() && ready_serial(#[trigger] lines[i]) == Some(s);
        lemma_ready_line(lines[i], s);
    }
    if !s.contains('\t') && exists|i: int|
        0 <= i < lines.len() && #[trigger] lines[i] == s + "\t"@ + "device"@ {
        let i = choose|i: int| 0 <= i < lines.len() && #[trigger] lines[i] == s + "\t"@ + "device"@;
        lemma_ready_line(lines[i], s);
    }
}

/// The ready serials of two runs of lines, one after the other.
pub proof fn lemma_ready_serials_concat(x: Seq<Seq<char>>, y: Seq<Seq<char>>)
    ensures
        ready_serials(x + y) == ready_serials(x) + ready_serials(y),
    decreases y.len(),
{
    if y.len() == 0 {
        assert(x + y =~= x);
        assert(ready_serials(x) + ready_serials(y) =~= ready_serials(x));
    } else {
        lemma_ready_serials_concat(x, y.drop_last());
        assert((x + y).drop_last() =~= x + y.drop_last());
        assert((x + y).last() == y.last());
        if let Some(t) = ready_serial(y.last()) {
            assert((ready_serials(x) + ready_serials(y.drop_last())).push(t) =~= ready_serials(x)
                + ready_serials(y.drop_last()).push(t));
        }
    }
}

/// The devices ready in a listing are those ready in the text before a line
/// break, then those ready in the text after it: every line counts.
pub proof fn lemma_ready_devices_concat(a: Seq<char>, b: Seq<char>)
    ensures
        ready_devices(a + seq!['\n'] + b) == ready_devices(a) + ready_devices(b),
{
    crate::text::lemma_split_lines_concat(a, b);
    lemma_ready_serials_concat(split_lines(a), split_lines(b));
}

/// A single line reports the device `s` as ready exactly when it is `s`, a
/// tab, and `device`, where `s` holds no tab.
pub proof fn lemma_ready_devices_one_line(line: Seq<char>, s: Seq<char>)
    requires
        !line.contains('\n'),
    ensures
        ready_devices(line).contains(s) <==> (line == s + "\t"@ + "device"@ && !s.contains('\t')),
{
    crate::text::lemma_split_lines_single(line);
    lemma_ready_devices_of_listing(line, s);
    assert(split_lines(line)[0] == line);
}

/// Whether two texts are equal.
fn same_text(a: &str, b: &str) -> (same: bool)
    ensures
        same == (a@ == b@),
{
    String::from_str(a) == String::from_str(b)
}

/// The serial on one line of a device listing, if that device is ready.
fn ready_serial_of(line: &str) -> (serial: Option<String>)
    ensures
        opt_string_text(serial) == ready_serial(line@),
{
    let chars = to_chars(line);
    let tab = to_chars("\t");
    assert(chars@.skip(0) =~= chars@);
    proof {
        lemma_find_is_first(chars@, tab@);
        reveal_strlit("\t");
    }
    match find_from(&chars, 0, &tab) {
        Some(i) => {
            assert(crate::text::occurs_at(chars@, tab@, i as int));
            assert(tab@.len() == 1);
            assert(i + 1 <= chars@.len());
            assert(i + 1 <= chars.len());
            let state = line.substring_char(i + 1, chars.len());
            assert(state@ =~= line@.skip(i + 1));
            if same_text(state, "device") {
                let serial = String::from_str(line.substring_char(0, i));
                assert(serial@ =~= line@.take(i as int));
                Some(serial)
            } else {
                None
            }
        },
        None => None,
    }
}

/// The serials of the ready devices in `listing`.
fn ready_devices_of(listing: &str) -> (serials: Vec<String>)
    ensures
        texts(serials@) == ready_devices(listing@),
{
    let chars = to_chars(listing);
    let ghost d = listing@;
    let mut serials: Vec<String> = Vec::new();
    let mut start: usize = 0;
    let mut i: usize = 0;
    assert(d.take(0) =~= Seq::<char>::empty());
    while i < chars.len()
        invariant
            chars@ == d,
            d == listing@,
            0 <= start <= i <= chars.len(),
            texts(serials@) == ready_serials(split_lines(d.take(i as int)).drop_last()),
            split_lines(d.take(i as int)).last() == d.subrange(start as int, i as int),
        decreases chars.len() - i,
    {
        let ghost lines = split_lines(d.take(i as int));
        proof {
            assert(d.take(i + 1) =~= d.take(i as int).push(d[i as int]));
            lemma_split_lines_push(d.take(i as int), d[i as int]);
            lemma_split_lines_nonempty(d.take(i as int));
        }
        if chars[i] == '\n' {
            let line = listing.substring_char(start, i);
            let found = ready_serial_of(line);
            let ghost before = serials@;
            if let Some(serial) = found {
                serials.push(serial);
            }
            proof {
                let next = split_lines(d.take(i + 1));
                assert(next.drop_last() =~= lines);
                assert(lines.drop_last().push(lines.last()) =~= lines);
                assert(texts(serials@) =~= ready_serials(lines));
                assert(d.subrange(i + 1, i + 1) =~= Seq::<char>::empty());
            }
            start = i + 1;
        } else {
            proof {
                let next = split_lines(d.take(i + 1));
                assert(next.drop_last() =~= lines.drop_last());
                assert(next.last() =~= d.subrange(start as int, i + 1));
            }
        }
        i = i + 1;
    }
    let line = listing.substring_char(start, chars.len());
    let found = ready_serial_of(line);
    if let Some(serial) = found {
        serials.push(serial);
    }
    proof {
        assert(d.take(chars.len() as int) =~= d);
        let lines = split_lines(d);
        lemma_split_lines_nonempty(d);
        assert(lines.drop_last().push(lines.last()) =~= lines);
        assert(texts(serials@) =~= ready_devices(d));
    }
    serials
}

/// Whether `known` holds the text of `serial`.
fn contains_text(known: &Vec<String>, serial: &String) -> (found: bool)
    ensures
        found == texts(known@).contains(serial@),
{
    let mut i: usize = 0;
    while i < known.len()
        invariant
            0 <= i <= known.len(),
            forall|j: int| 0 <= j < i ==> texts(known@)[j] != serial@,
        decreases known.len() - i,
    {
        if known[i] == *serial {
            assert(texts(known@)[i as int] == serial@);
            return true;
        }
        i = i + 1;
    }
    false
}

/// The devices seen ready in the last device listing, so that each device is
/// reported once when it becomes ready.
#[derive(Debug)]
pub struct DeviceTracker {
    connected: Vec<String>,
}

impl DeviceTracker {
    /// The serials of the devices that were ready in the last listing.
    pub closed spec fn connected(&self) -> Seq<Seq<char>> {
        texts(self.connected@)
    }

    pub fn new() -> (tracker: DeviceTracker)
        ensures
            tracker.connected() == Seq::<Seq<char>>::empty(),
    {
        let tracker = DeviceTracker { connected: Vec::new() };
        assert(tracker.connected() =~= Seq::<Seq<char>>::empty());
        tracker
    }

    /// Takes a new device listing (the output of `adb devices`): returns the
    /// serials of the devices that it shows ready and that were not ready in
    /// the previous listing, in order, and remembers the ready ones.
    pub fn update(&mut self, listing: &Vec<u8>) -> (new: Vec<String>)
        ensures
            final(self).connected() == ready_devices(utf8_lossy(listing@)),
            texts(new@) == newly_ready(ready_devices(utf8_lossy(listing@)), old(self).connected()),
    {
        let text = decode_lossy(listing);
        let ready = ready_devices_of(text.as_str());
        let ghost all = texts(ready@);
        let mut new: Vec<String> = Vec::new();
        let mut k: usize = 0;
        assert(all.take(0) =~= Seq::<Seq<char>>::empty());
        while k < ready.len()
            invariant
                all == texts(ready@),
                0 <= k <= ready.len(),
                texts(new@) == newly_ready(all.take(k as int), texts(self.connected@)),
            decreases ready.len() - k,
        {
            assert(all.take(k + 1).drop_last() =~= all.take(k as int));
            assert(all.take(k + 1).last() == ready@[k as int]@);
            if !contains_text(&self.connected, &ready[k]) {
                let ghost before = new@;
                new.push(ready[k].clone());
                assert(texts(new@) =~= texts(before).push(ready@[k as int]@));
            }
            k = k + 1;
        }
        assert(all.take(ready.len() as int) =~= all);
        self.connected = ready;
        new
    }
}

} // verus!
