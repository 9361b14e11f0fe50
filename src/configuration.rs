use vstd::prelude::*;
use vstd::string::StrSliceExecFns;

use crate::bucket::ascending_bounds;

verus! {

/// Key of the element identity, which stands outside an element's attributes.
pub const ID_KEY: &'static str = "@id";

/// Key of the grid coordinates label, which applies to a whole grid cell.
pub const COORDINATES_KEY: &'static str = "@coordinates";

/// Key of the routing directive in the channel configuration.
pub const ROUTING_KEY: &'static str = "@routingAlgorithm";

/// Key of the border routers toggle in the channel configuration.
pub const BORDER_ROUTERS_KEY: &'static str = "@borderRouters";

/// Bounds of four colour buckets and the colour of each bucket.
pub struct ColourConfig {
    pub bounds: [u64; 4],
    pub colours: [String; 4],
}

impl ColourConfig {
    pub open spec fn wf(&self) -> bool {
        ascending_bounds(self.bounds)
    }
}

/// A requested routing computation.
pub struct RoutingConfiguration {
    pub algorithm: String,
}

/// How one attribute is to be displayed.
pub enum FieldConfiguration {
    /// The label and the value as plain text.
    Text(String),
    /// No text: a CSS fill of the element in the colour of the value's bucket.
    Fill(ColourConfig),
    /// The label and the value as text coloured by the value's bucket.
    ColouredText(String, ColourConfig),
    /// Not displayed: routing must be computed before the overlay.
    Routing(RoutingConfiguration),
    /// Not displayed: toggles auxiliary rendering.
    Boolean(bool),
}

impl FieldConfiguration {
    pub open spec fn wf(&self) -> bool {
        match self {
            FieldConfiguration::Fill(c) => c.wf(),
            FieldConfiguration::ColouredText(_, c) => c.wf(),
            _ => true,
        }
    }
}

/// The first value stored under key `k` in a sequence of keyed entries.
pub open spec fn lookup<V>(s: Seq<(String, V)>, k: Seq<char>) -> Option<V>
    decreases s.len(),
{
    if s.len() == 0 {
        None
    } else if s[0].0@ == k {
        Some(s[0].1)
    } else {
        lookup(s.drop_first(), k)
    }
}

/// No key occurs twice among the entries.
pub open spec fn unique_keys<V>(s: Seq<(String, V)>) -> bool {
    forall|i: int, j: int| 0 <= i < j < s.len() ==> #[trigger] s[i].0@ != #[trigger] s[j].0@
}

/// The value stored under `key` among `entries`, if any.
pub fn lookup_entry<'a, V>(entries: &'a Vec<(String, V)>, key: &String) -> (r: Option<&'a V>)
    ensures
        match r {
            Some(v) => lookup(entries@, key@) == Some(*v),
            None => lookup(entries@, key@) == None::<V>,
        },
{
    let mut i: usize = 0;
    assert(entries@.subrange(0, entries@.len() as int) =~= entries@);
    while i < entries.len()
        invariant
            i <= entries@.len(),
            lookup(entries@, key@) == lookup(entries@.subrange(i as int, entries@.len() as int), key@),
        decreases entries@.len() - i,
    {
        let ghost rest = entries@.subrange(i as int, entries@.len() as int);
        assert(rest.drop_first() =~= entries@.subrange(i + 1, entries@.len() as int));
        if entries[i].0 == *key {
            return Some(&entries[i].1);
        }
        i += 1;
    }
    None
}

/// Strict lexicographic order of keys, character by character. On UTF-8
/// text this is the order of the encoded bytes, which is `String`'s order.
pub open spec fn key_less(a: Seq<char>, b: Seq<char>) -> bool
    decreases a.len(),
{
    if a.len() == 0 {
        b.len() > 0
    } else if b.len() == 0 {
        false
    } else if a[0] != b[0] {
        a[0] < b[0]
    } else {
        key_less(a.drop_first(), b.drop_first())
    }
}

/// The entries are in strictly ascending order of key.
pub open spec fn sorted_keys<V>(s: Seq<(String, V)>) -> bool {
    forall|i: int, j: int| 0 <= i < j < s.len() ==> key_less(#[trigger] s[i].0@, #[trigger] s[j].0@)
}

/// No key is less than itself.
pub proof fn lemma_key_less_irreflexive(a: Seq<char>)
    ensures
        !key_less(a, a),
    decreases a.len(),
{
    if a.len() > 0 {
        lemma_key_less_irreflexive(a.drop_first());
    }
}

/// Of two different keys, one is less than the other.
pub proof fn lemma_key_less_total(a: Seq<char>, b: Seq<char>)
    requires
        a != b,
    ensures
        key_less(a, b) || key_less(b, a),
    decreases a.len(),
{
    if a.len() > 0 && b.len() > 0 && a[0] == b[0] {
        if a.drop_first() == b.drop_first() {
            assert(a.drop_first().len() == b.drop_first().len());
            assert(a.len() == b.len());
            assert(a =~= b) by {
                assert forall|k: int| 0 <= k < a.len() implies a[k] == b[k] by {
                    if k > 0 {
                        assert(a[k] == a.drop_first()[k - 1]);
                        assert(b[k] == b.drop_first()[k - 1]);
                    }
                };
            };
        }
        lemma_key_less_total(a.drop_first(), b.drop_first());
    } else if a.len() == 0 && b.len() == 0 {
        assert(a =~= b);
    }
}

/// The order of keys is transitive.
pub proof fn lemma_key_less_transitive(a: Seq<char>, b: Seq<char>, c: Seq<char>)
    requires
        key_less(a, b),
        key_less(b, c),
    ensures
        key_less(a, c),
    decreases a.len(),
{
    if a.len() > 0 && b.len() > 0 && c.len() > 0 && a[0] == b[0] && b[0] == c[0] {
        lemma_key_less_transitive(a.drop_first(), b.drop_first(), c.drop_first());
    }
}

/// Sorted entries hold no key twice.
pub proof fn lemma_sorted_unique<V>(s: Seq<(String, V)>)
    requires
        sorted_keys(s),
    ensures
        unique_keys(s),
{
    assert forall|i: int, j: int| 0 <= i < j < s.len() implies #[trigger] s[i].0@ != #[trigger] s[j].0@ by {
        if s[i].0@ == s[j].0@ {
            lemma_key_less_irreflexive(s[i].0@);
        }
    };
}

/// Whether key `a` comes before key `b`.
pub fn keys_less(a: &String, b: &String) -> (r: bool)
    ensures
        r == key_less(a@, b@),
{
    let sa = a.as_str();
    let sb = b.as_str();
    let la = sa.unicode_len();
    let lb = sb.unicode_len();
    let mut i: usize = 0;
    assert(a@.subrange(0, la as int) =~= a@);
    assert(b@.subrange(0, lb as int) =~= b@);
    while i < la && i < lb
        invariant
            sa@ == a@,
            sb@ == b@,
            la == a@.len(),
            lb == b@.len(),
            i <= la && i <= lb,
            key_less(a@, b@) == key_less(a@.subrange(i as int, la as int), b@.subrange(i as int, lb as int)),
        decreases la - i,
    {
        let ca = sa.get_char(i);
        let cb = sb.get_char(i);
        let ghost ra = a@.subrange(i as int, la as int);
        let ghost rb = b@.subrange(i as int, lb as int);
        assert(ra[0] == ca && rb[0] == cb);
        if ca != cb {
            return ca < cb;
        }
        assert(ra.drop_first() =~= a@.subrange(i + 1, la as int));
        assert(rb.drop_first() =~= b@.subrange(i + 1, lb as int));
        i += 1;
    }
    i == la && i < lb
}

/// An ordered mapping from attribute key to how the attribute is displayed,
/// kept in ascending order of key.
pub struct AttributeConfiguration {
    entries: Vec<(String, FieldConfiguration)>,
}

impl AttributeConfiguration {
    pub closed spec fn view(&self) -> Seq<(String, FieldConfiguration)> {
        self.entries@
    }

    pub open spec fn wf(&self) -> bool {
        &&& sorted_keys(self@)
        &&& forall|i: int| 0 <= i < self@.len() ==> (#[trigger] self@[i]).1.wf()
    }

    /// An empty configuration.
    pub fn new() -> (r: Self)
        ensures
            r@ == Seq::<(String, FieldConfiguration)>::empty(),
            r.wf(),
    {
        AttributeConfiguration { entries: Vec::new() }
    }

    /// Sets the configuration of `key`: in place where the key is present,
    /// else as a new entry at its place in key order.
    pub fn insert(&mut self, key: String, value: FieldConfiguration)
        requires
            old(self).wf(),
            value.wf(),
        ensures
            final(self).wf(),
            lookup(old(self)@, key@) is None ==> exists|p: int|
                0 <= p <= old(self)@.len() && final(self)@ == old(self)@.insert(p, (key, value)),
            forall|i: int|
                0 <= i < old(self)@.len() && (#[trigger] old(self)@[i]).0@ == key@ ==> final(self)@
                    == old(self)@.update(i, (key, value)),
    {
        let ghost s = self.entries@;
        proof {
            lemma_sorted_unique(s);
        }
        let mut i: usize = 0;
        while i < self.entries.len() && keys_less(&self.entries[i].0, &key)
            invariant
                i <= self.entries@.len(),
                self.entries@ == s,
                forall|j: int| 0 <= j < i ==> key_less(#[trigger] s[j].0@, key@),
            decreases self.entries@.len() - i,
        {
            i += 1;
        }
        assert forall|j: int| 0 <= j < i implies (#[trigger] s[j]).0@ != key@ by {
            if s[j].0@ == key@ {
                lemma_key_less_irreflexive(key@);
            }
        };
        if i < self.entries.len() && self.entries[i].0 == key {
            proof {
                lemma_lookup_first(s, key@, i as int);
            }
            self.entries.set(i, (key, value));
            assert forall|k: int| 0 <= k < s.len() implies (#[trigger] self.entries@[k]).0@
                == s[k].0@ by {};
            assert forall|j: int| 0 <= j < s.len() && (#[trigger] s[j]).0@ == key@ implies j == i by {
                if j != i {
                    assert(s[j].0@ != s[i as int].0@ || s[i as int].0@ != s[j].0@);
                }
            };
            assert(sorted_keys(self.entries@)) by {
                assert forall|p: int, q: int| 0 <= p < q < self.entries@.len() implies key_less(
                    #[trigger] self.entries@[p].0@,
                    #[trigger] self.entries@[q].0@,
                ) by {
                    assert(key_less(s[p].0@, s[q].0@));
                };
            };
            return;
        }
        // Every key from `i` on is greater than `key`.
        assert forall|j: int| i <= j < s.len() implies key_less(key@, #[trigger] s[j].0@) by {
            assert(!key_less(s[i as int].0@, key@));
            assert(s[i as int].0@ != key@);
            lemma_key_less_total(s[i as int].0@, key@);
            if j > i {
                lemma_key_less_transitive(key@, s[i as int].0@, s[j].0@);
            }
        };
        assert forall|j: int| i <= j < s.len() implies (#[trigger] s[j]).0@ != key@ by {
            if s[j].0@ == key@ {
                lemma_key_less_irreflexive(key@);
            }
        };
        proof {
            lemma_lookup_absent(s, key@);
        }
        self.entries.insert(i, (key, value));
        let ghost t = self.entries@;
        assert(t == s.insert(i as int, (key, value)));
        assert(sorted_keys(t)) by {
            assert forall|p: int, q: int| 0 <= p < q < t.len() implies key_less(
                #[trigger] t[p].0@,
                #[trigger] t[q].0@,
            ) by {
                if q < i {
                    assert(t[p] == s[p] && t[q] == s[q]);
                } else if q == i {
                    assert(t[p] == s[p]);
                } else if p < i {
                    assert(t[p] == s[p] && t[q] == s[q - 1]);
                    assert(key_less(s[p].0@, s[q - 1].0@));
                } else if p == i {
                    assert(t[q] == s[q - 1]);
                } else {
                    assert(t[p] == s[p - 1] && t[q] == s[q - 1]);
                    assert(key_less(s[p - 1].0@, s[q - 1].0@));
                }
            };
        };
        assert forall|k: int| 0 <= k < t.len() implies (#[trigger] t[k]).1.wf() by {
            if k < i {
                assert(t[k] == s[k]);
            } else if k > i {
                assert(t[k] == s[k - 1]);
            }
        };
    }

    /// The configuration of `key`, if any.
    pub fn get(&self, key: &String) -> (r: Option<&FieldConfiguration>)
        ensures
            match r {
                Some(v) => lookup(self@, key@) == Some(*v),
                None => lookup(self@, key@) is None,
            },
    {
        lookup_entry(&self.entries, key)
    }

    /// The number of configured keys.
    pub fn len(&self) -> (r: usize)
        ensures
            r == self@.len(),
    {
        self.entries.len()
    }

    /// Whether no key is configured.
    pub fn is_empty(&self) -> (r: bool)
        ensures
            r == (self@.len() == 0),
    {
        self.entries.len() == 0
    }

    /// The entries, in order.
    pub fn entries(&self) -> (r: &Vec<(String, FieldConfiguration)>)
        ensures
            r@ == self@,
    {
        &self.entries
    }
}

/// A key that no entry holds is not found.
pub proof fn lemma_lookup_absent<V>(s: Seq<(String, V)>, k: Seq<char>)
    requires
        forall|j: int| 0 <= j < s.len() ==> (#[trigger] s[j]).0@ != k,
    ensures
        lookup(s, k) is None,
    decreases s.len(),
{
    if s.len() > 0 {
        assert forall|j: int| 0 <= j < s.drop_first().len() implies (#[trigger] s.drop_first()[j]).0@
            != k by {
            assert(s.drop_first()[j] == s[j + 1]);
        };
        lemma_lookup_absent(s.drop_first(), k);
    }
}

/// The entry at `i` is found when no earlier entry holds its key.
pub proof fn lemma_lookup_first<V>(s: Seq<(String, V)>, k: Seq<char>, i: int)
    requires
        0 <= i < s.len(),
        s[i].0@ == k,
        forall|j: int| 0 <= j < i ==> (#[trigger] s[j]).0@ != k,
    ensures
        lookup(s, k) == Some(s[i].1),
    decreases i,
{
    if i > 0 {
        assert forall|j: int| 0 <= j < i - 1 implies (#[trigger] s.drop_first()[j]).0@ != k by {
            assert(s.drop_first()[j] == s[j + 1]);
        };
        lemma_lookup_first(s.drop_first(), k, i - 1);
    }
}

/// Which attributes are displayed on cores, on routers and on channels.
pub struct Configuration {
    pub core_config: AttributeConfiguration,
    pub router_config: AttributeConfiguration,
    pub channel_config: AttributeConfiguration,
}

impl Configuration {
    pub open spec fn wf(&self) -> bool {
        self.core_config.wf() && self.router_config.wf() && self.channel_config.wf()
    }
}

} // verus!
