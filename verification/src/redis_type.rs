//! Argument lists that RediSQL hands to Redis's own commands, such as the
//! `XADD` that appends a row to a stream, and the replies those commands
//! give back.
use vstd::prelude::*;

verus! {

/// The arguments of a call into Redis, in order; Redis strings are made of
/// them when the call is issued.
pub struct LeakyArrayOfRMString {
    array: Vec<String>,
}

pub open spec fn strings_view(v: Seq<String>) -> Seq<Seq<char>> {
    v.map_values(|s: String| s@)
}

impl View for LeakyArrayOfRMString {
    type V = Seq<Seq<char>>;

    closed spec fn view(&self) -> Seq<Seq<char>> {
        strings_view(self.array@)
    }
}

impl LeakyArrayOfRMString {
    pub fn new() -> (a: Self)
        ensures
            a@ == Seq::<Seq<char>>::empty(),
    {
        let a = LeakyArrayOfRMString { array: Vec::with_capacity(24) };
        assert(a@ =~= Seq::<Seq<char>>::empty());
        a
    }

    pub fn push(&mut self, s: &str)
        ensures
            final(self)@ == old(self)@.push(s@),
    {
        self.array.push(String::from_str(s));
        assert(self@ =~= old(self)@.push(s@));
    }

    pub fn len(&self) -> (n: usize)
        ensures
            n == self@.len(),
    {
        self.array.len()
    }

    pub fn is_empty(&self) -> (b: bool)
        ensures
            b == (self@.len() == 0),
    {
        self.len() == 0
    }

    /// The arguments, in order.
    pub fn as_slice(&self) -> (s: &[String])
        ensures
            strings_view(s@) == self@,
    {
        self.array.as_slice()
    }
}

/// The list after `items` were pushed on `start`, one by one, in order:
/// each push adds its string at the end (see `push`).
pub open spec fn after_pushes(start: Seq<Seq<char>>, items: Seq<Seq<char>>) -> Seq<Seq<char>>
    decreases items.len(),
{
    if items.len() == 0 {
        start
    } else {
        after_pushes(start, items.drop_last()).push(items.last())
    }
}

/// Pushing strings one by one onto a new list gives exactly those strings,
/// in the order of the pushes: the list's length (`len`) is their number,
/// it is empty (`is_empty`) only when there were none, and each push keeps
/// the strings pushed before it.
pub proof fn law_pushes_in_order(items: Seq<Seq<char>>)
    ensures
        after_pushes(Seq::empty(), items) == items,
        after_pushes(Seq::empty(), items).len() == items.len(),
        (after_pushes(Seq::empty(), items).len() == 0) == (items.len() == 0),
        forall|n: int|
            0 <= n <= items.len() ==> #[trigger] after_pushes(Seq::empty(), items.take(n))
                == items.take(n),
    decreases items.len(),
{
    if items.len() > 0 {
        law_pushes_in_order(items.drop_last());
        assert(items.drop_last().push(items.last()) =~= items);
    } else {
        assert(after_pushes(Seq::empty(), items) =~= items);
    }
    assert forall|n: int| 0 <= n <= items.len() implies #[trigger] after_pushes(
        Seq::empty(),
        items.take(n),
    ) == items.take(n) by {
        lemma_after_pushes_is_concat(Seq::empty(), items.take(n));
        assert(Seq::<Seq<char>>::empty() + items.take(n) =~= items.take(n));
    }
}

proof fn lemma_after_pushes_is_concat(start: Seq<Seq<char>>, items: Seq<Seq<char>>)
    ensures
        after_pushes(start, items) == start + items,
    decreases items.len(),
{
    if items.len() == 0 {
        assert(start + items =~= start);
    } else {
        lemma_after_pushes_is_concat(start, items.drop_last());
        assert((start + items.drop_last()).push(items.last()) =~= start + items);
    }
}

/// The entry after `pairs` of field and value were added to it, one by one,
/// in order: each addition puts the field, then the value, at the end (see
/// `add_element`).
pub open spec fn after_additions(
    start: Seq<Seq<char>>,
    pairs: Seq<(Seq<char>, Seq<char>)>,
) -> Seq<Seq<char>>
    decreases pairs.len(),
{
    if pairs.len() == 0 {
        start
    } else {
        after_additions(start, pairs.drop_last()).push(pairs.last().0).push(pairs.last().1)
    }
}

/// Adding fields and values one by one to a new `XADD` for `key` gives the
/// arguments `key`, `*`, then each field followed by its value, in the
/// order of the additions: `2 + 2 * m` arguments for `m` additions, and
/// the arguments already there stay.
pub proof fn law_additions_in_order(key: Seq<char>, pairs: Seq<(Seq<char>, Seq<char>)>)
    ensures
        ({
            let a = after_additions(seq![key, "*"@], pairs);
            &&& a.len() == 2 + 2 * pairs.len()
            &&& a[0] == key
            &&& a[1] == "*"@
            &&& forall|i: int|
                0 <= i < pairs.len() ==> a[2 + 2 * i] == (#[trigger] pairs[i]).0 && a[3 + 2 * i]
                    == pairs[i].1
        }),
    decreases pairs.len(),
{
    if pairs.len() > 0 {
        let p = pairs.drop_last();
        law_additions_in_order(key, p);
        let before = after_additions(seq![key, "*"@], p);
        let a = after_additions(seq![key, "*"@], pairs);
        assert(a == before.push(pairs.last().0).push(pairs.last().1));
        assert forall|i: int| 0 <= i < pairs.len() implies a[2 + 2 * i] == (
        #[trigger] pairs[i]).0 && a[3 + 2 * i] == pairs[i].1 by {
            if i < p.len() {
                assert(p[i] == pairs[i]);
                assert(before[2 + 2 * i] == p[i].0);
                assert(before[3 + 2 * i] == p[i].1);
            }
        }
    }
}

/// An `XADD key id field value [field value ...]` call.
pub struct XADDCommand {
    array: LeakyArrayOfRMString,
}

impl View for XADDCommand {
    type V = Seq<Seq<char>>;

    closed spec fn view(&self) -> Seq<Seq<char>> {
        self.array@
    }
}

impl XADDCommand {
    /// An entry with an identifier that Redis picks (`*`).
    pub fn new(key: &str) -> (c: Self)
        ensures
            c@ == seq![key@, "*"@],
    {
        XADDCommand::new_with_id(key, "*")
    }

    pub fn new_with_id(key: &str, id: &str) -> (c: Self)
        ensures
            c@ == seq![key@, id@],
    {
        let mut array = LeakyArrayOfRMString::new();
        array.push(key);
        array.push(id);
        assert(array@ =~= seq![key@, id@]);
        XADDCommand { array }
    }

    pub fn add_element(&mut self, field: &str, value: &str)
        ensures
            final(self)@ == old(self)@.push(field@).push(value@),
    {
        self.array.push(field);
        self.array.push(value);
    }

    /// The arguments of the call, after `XADD` itself.
    pub fn arguments(&self) -> (a: &LeakyArrayOfRMString)
        ensures
            a@ == self@,
    {
        &self.array
    }
}

/// The reply of a command that RediSQL called inside Redis, read out: a
/// string, an error, an integer, an array of replies or nothing.
pub enum CallReply {
    RString { text: String },
    RError { message: String },
    RInteger { value: i64 },
    RArray { elements: Vec<CallReply> },
    RNull,
}

/// The text of a string reply.
pub open spec fn reply_text(r: CallReply) -> Option<Seq<char>> {
    match r {
        CallReply::RString { text } => Some(text@),
        _ => None,
    }
}

impl CallReply {
    /// The number of bytes of a string, the number of elements of an
    /// array; other replies have no length.
    pub fn length(&self) -> (n: Option<usize>)
        ensures
            match *self {
                CallReply::RString { text } => n == Some(vstd::utf8::encode_utf8(text@).len() as usize),
                CallReply::RArray { elements } => n == Some(elements.len()),
                _ => n is None,
            },
    {
        match self {
            CallReply::RString { text } => Some(text.as_str().len()),
            CallReply::RArray { elements } => Some(elements.len()),
            _ => None,
        }
    }

    /// The element `idx` of an array; no element for another reply or past
    /// the end of the array (where Redis hands out a null reply).
    pub fn access_array_subelement(&self, idx: usize) -> (e: Option<&CallReply>)
        ensures
            match *self {
                CallReply::RArray { elements } => if idx < elements.len() {
                    e == Some(&elements@[idx as int])
                } else {
                    e is None
                },
                _ => e is None,
            },
    {
        match self {
            CallReply::RArray { elements } => if idx < elements.len() {
                Some(&elements[idx])
            } else {
                None
            },
            _ => None,
        }
    }

    pub fn access_integer(&self) -> (i: Option<i64>)
        ensures
            match *self {
                CallReply::RInteger { value } => i == Some(value),
                _ => i is None,
            },
    {
        match self {
            CallReply::RInteger { value } => Some(*value),
            _ => None,
        }
    }

    pub fn access_string(&self) -> (s: Option<String>)
        ensures
            match s {
                Some(t) => reply_text(*self) == Some(t@),
                None => reply_text(*self) is None,
            },
    {
        match self {
            CallReply::RString { text } => Some(text.clone()),
            _ => None,
        }
    }

    pub fn access_error(&self) -> (s: Option<String>)
        ensures
            match *self {
                CallReply::RError { message } => s matches Some(t) && t@ == message@,
                _ => s is None,
            },
    {
        match self {
            CallReply::RError { message } => Some(message.clone()),
            _ => None,
        }
    }
}

} // verus!
