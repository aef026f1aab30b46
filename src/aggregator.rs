//! The fan-in aggregator: it keeps the latest text of every sensor by name
//! and renders the segments of the names in a fixed order as one line.
use vstd::prelude::*;
use crate::text::join;

verus! {

/// The texts of the names of `order` that have one in `latest`, in the order
/// of `order`.
pub open spec fn segments(order: Seq<Seq<char>>, latest: Map<Seq<char>, Seq<char>>) -> Seq<
    Seq<char>,
>
    decreases order.len(),
{
    if order.len() == 0 {
        Seq::empty()
    } else {
        let rest = segments(order.drop_last(), latest);
        if latest.contains_key(order.last()) {
            rest.push(latest[order.last()])
        } else {
            rest
        }
    }
}

/// One output line: the segments as a JSON array, followed by a comma.
pub open spec fn line_text(order: Seq<Seq<char>>, latest: Map<Seq<char>, Seq<char>>) -> Seq<char> {
    "["@ + join(segments(order, latest), ","@) + "],"@
}

pub open spec fn texts_of(v: Seq<String>) -> Seq<Seq<char>> {
    v.map_values(|s: String| s@)
}

/// Latest text per sensor name, and the order in which names are shown.
pub struct Aggregator {
    order: Vec<String>,
    names: Vec<String>,
    texts: Vec<String>,
    latest: Ghost<Map<Seq<char>, Seq<char>>>,
}

impl Aggregator {
    /// The display order of sensor names, fixed at creation.
    pub closed spec fn order(&self) -> Seq<Seq<char>> {
        texts_of(self.order@)
    }

    /// The latest text received for each name.
    pub closed spec fn latest(&self) -> Map<Seq<char>, Seq<char>> {
        self.latest@
    }

    pub closed spec fn wf(&self) -> bool {
        &&& self.names.len() == self.texts.len()
        &&& forall|i: int, j: int|
            0 <= i < j < self.names.len() ==> self.names[i]@ != self.names[j]@
        &&& forall|i: int|
            0 <= i < self.names.len() ==> #[trigger] self.latest@.contains_key(self.names[i]@)
                && self.latest@[self.names[i]@] == self.texts[i]@
        &&& forall|k: Seq<char>|
            #[trigger] self.latest@.contains_key(k) ==> exists|i: int|
                0 <= i < self.names.len() && self.names[i]@ == k
    }

    /// An aggregator that shows the names of `order` in that order and has
    /// received nothing yet.
    pub fn new(order: Vec<String>) -> (r: Aggregator)
        ensures
            r.wf(),
            r.order() == texts_of(order@),
            r.latest() == Map::<Seq<char>, Seq<char>>::empty(),
    {
        Aggregator {
            order,
            names: Vec::new(),
            texts: Vec::new(),
            latest: Ghost(Map::empty()),
        }
    }

    /// Where `name` is kept, if it has been received.
    fn position(&self, name: &String) -> (r: Option<usize>)
        requires
            self.wf(),
        ensures
            r matches Some(i) ==> i < self.names.len() && self.names[i as int]@ == name@,
            r is None ==> !self.latest().contains_key(name@),
    {
        let mut i: usize = 0;
        while i < self.names.len()
            invariant
                self.wf(),
                i <= self.names.len(),
                forall|j: int| 0 <= j < i ==> self.names[j]@ != name@,
            decreases self.names.len() - i,
        {
            if self.names[i] == *name {
                return Some(i);
            }
            i = i + 1;
        }
        None
    }

    /// Records `text` as the latest text of `name`, replacing any earlier one.
    pub fn update(&mut self, name: String, text: String)
        requires
            old(self).wf(),
        ensures
            final(self).wf(),
            final(self).order() == old(self).order(),
            final(self).latest() == old(self).latest().insert(name@, text@),
    {
        let ghost key = name@;
        let ghost value = text@;
        let ghost mut j: int = 0;
        match self.position(&name) {
            Some(i) => {
                self.texts.set(i, text);
                proof {
                    j = i as int;
                }
            },
            None => {
                proof {
                    j = self.names.len() as int;
                    assert forall|m: int| 0 <= m < self.names.len() implies self.names[m]@
                        != key by {
                        assert(self.latest@.contains_key(self.names[m]@));
                    }
                }
                self.names.push(name);
                self.texts.push(text);
            },
        }
        self.latest = Ghost(self.latest@.insert(key, value));
        assert(0 <= j < self.names.len() && self.names[j]@ == key && self.texts[j]@ == value);
        assert forall|i: int, m: int|
            0 <= i < m < self.names.len() implies self.names[i]@ != self.names[m]@ by {
            if m < old(self).names.len() {
                assert(old(self).names[i]@ != old(self).names[m]@);
            }
        }
        assert forall|i: int| 0 <= i < self.names.len() implies #[trigger] self.latest@.contains_key(
            self.names[i]@,
        ) && self.latest@[self.names[i]@] == self.texts[i]@ by {
            if i != j {
                assert(self.names[i]@ != key);
                assert(old(self).latest@.contains_key(old(self).names[i]@));
            }
        }
        assert forall|k: Seq<char>| #[trigger] self.latest@.contains_key(k) implies exists|i: int|
            0 <= i < self.names.len() && self.names[i]@ == k by {
            if k != key {
                assert(old(self).latest@.contains_key(k));
                let i = choose|i: int| 0 <= i < old(self).names.len() && old(self).names[i]@ == k;
                assert(self.names[i]@ == k);
            } else {
                assert(self.names[j]@ == k);
            }
        }
    }

    /// The text received last for `name`, if any.
    fn text_of(&self, name: &String) -> (r: Option<&String>)
        requires
            self.wf(),
        ensures
            r matches Some(t) ==> self.latest().contains_key(name@) && t@ == self.latest()[name@],
            r is None ==> !self.latest().contains_key(name@),
    {
        match self.position(name) {
            Some(i) => Some(&self.texts[i]),
            None => None,
        }
    }

    /// The output line: the latest text of every name of the order that has
    /// reported, in that order, joined by commas inside `[` and `],`.
    pub fn render(&self) -> (r: String)
        requires
            self.wf(),
        ensures
            r@ == line_text(self.order(), self.latest()),
    {
        let ghost order = self.order();
        let ghost latest = self.latest();
        let mut out = String::from_str("[");
        let mut first = true;
        let mut i: usize = 0;
        while i < self.order.len()
            invariant
                self.wf(),
                order == self.order(),
                latest == self.latest(),
                i <= self.order.len(),
                out@ == "["@ + join(segments(order.take(i as int), latest), ","@),
                first == (segments(order.take(i as int), latest).len() == 0),
            decreases self.order.len() - i,
        {
            let ghost before = segments(order.take(i as int), latest);
            assert(order.take(i + 1).drop_last() =~= order.take(i as int));
            assert(order[i as int] == self.order[i as int]@);
            match self.text_of(&self.order[i]) {
                Some(t) => {
                    let ghost after = before.push(t@);
                    assert(after.drop_last() =~= before);
                    if !first {
                        out.append(",");
                    }
                    out.append(t.as_str());
                    first = false;
                    assert(out@ =~= "["@ + join(after, ","@));
                },
                None => {},
            }
            i = i + 1;
        }
        assert(order.take(self.order.len() as int) =~= order);
        out.append("],");
        out
    }

    /// Records one message and returns the line to show after it.
    pub fn receive(&mut self, name: String, text: String) -> (r: String)
        requires
            old(self).wf(),
        ensures
            final(self).wf(),
            final(self).order() == old(self).order(),
            final(self).latest() == old(self).latest().insert(name@, text@),
            r@ == line_text(final(self).order(), final(self).latest()),
    {
        self.update(name, text);
        self.render()
    }
}

/// Receiving the same message twice in a row leaves the same state and
/// renders the same line both times.
pub proof fn law_repeat_renders_same(
    order: Seq<Seq<char>>,
    latest: Map<Seq<char>, Seq<char>>,
    name: Seq<char>,
    text: Seq<char>,
)
    ensures
        latest.insert(name, text).insert(name, text) == latest.insert(name, text),
        line_text(order, latest.insert(name, text).insert(name, text)) == line_text(
            order,
            latest.insert(name, text),
        ),
{
    assert(latest.insert(name, text).insert(name, text) =~= latest.insert(name, text));
}

/// A message for a name outside the order is kept but changes nothing in
/// the rendered line.
pub proof fn law_unordered_name_not_rendered(
    order: Seq<Seq<char>>,
    latest: Map<Seq<char>, Seq<char>>,
    name: Seq<char>,
    text: Seq<char>,
)
    requires
        !order.contains(name),
    ensures
        line_text(order, latest.insert(name, text)) == line_text(order, latest),
    decreases order.len(),
{
    lemma_segments_ignore(order, latest, name, text);
}

proof fn lemma_segments_ignore(
    order: Seq<Seq<char>>,
    latest: Map<Seq<char>, Seq<char>>,
    name: Seq<char>,
    text: Seq<char>,
)
    requires
        !order.contains(name),
    ensures
        segments(order, latest.insert(name, text)) == segments(order, latest),
    decreases order.len(),
{
    if order.len() > 0 {
        let rest = order.drop_last();
        assert(!rest.contains(name)) by {
            if rest.contains(name) {
                let i = choose|i: int| 0 <= i < rest.len() && rest[i] == name;
                assert(order[i] == name);
            }
        }
        lemma_segments_ignore(rest, latest, name, text);
        assert(order.last() != name) by {
            if order.last() == name {
                assert(order[order.len() - 1] == name);
            }
        }
    }
}

} // verus!
