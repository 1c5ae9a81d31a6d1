//! Type tags and message envelopes.
//!
//! A type tag is the text by which a message type is known on the bus. An
//! envelope is a payload that travels together with its tag and with the
//! capabilities its type declared, so that a receiver can decide by the tag
//! alone whether the payload is of the type it handles.

use vstd::prelude::*;

verus! {

/// Textual identity of a concrete type, equal in every process that uses the
/// same text.
pub type TypeTag = String;

/// A type that knows its own tag.
///
/// Implementations are expected to answer with the same text on every call.
/// Nothing here relies on it: wherever a tag is asked for, the contract of
/// the asking function speaks of the answer that was given.
pub trait TypeTagged {
    /// The tag of the type.
    fn type_tag_() -> TypeTag;

    /// The tag of a value's type.
    fn type_tag(&self) -> TypeTag;

    /// The name under which a value's type is shown. Unless a type says
    /// otherwise, it is the tag.
    fn type_label(&self) -> (label: TypeTag)
        default_ensures
            call_ensures(Self::type_tag, (self,), label),
    {
        self.type_tag()
    }
}

/// A value that can be sent over the bus.
pub trait Message: TypeTagged + Sized {
    /// Whether values of the type can be cloned.
    fn is_clonable() -> bool;

    /// Whether values of the type may be observed by several owners.
    fn is_shared() -> bool;

    /// A copy of the value, or nothing for a type that cannot be cloned.
    fn try_clone(&self) -> Option<Self>;
}

/// What a message type declares of itself: its tag and its capabilities.
#[derive(Debug)]
pub struct MessageInfo {
    pub tag: TypeTag,
    pub clonable: bool,
    pub shared: bool,
}

/// A payload with the tag and the capabilities it travels under.
#[derive(Debug)]
pub struct Envelope<P> {
    pub tag: TypeTag,
    pub clonable: bool,
    pub shared: bool,
    pub payload: P,
}

/// What an envelope is: its tag as text, its capabilities, its payload.
pub struct EnvelopeView<P> {
    pub tag: Seq<char>,
    pub clonable: bool,
    pub shared: bool,
    pub payload: P,
}

impl<P> View for Envelope<P> {
    type V = EnvelopeView<P>;

    open spec fn view(&self) -> EnvelopeView<P> {
        EnvelopeView {
            tag: self.tag@,
            clonable: self.clonable,
            shared: self.shared,
            payload: self.payload,
        }
    }
}

/// Whether `info` is what the type `M` answered when it was asked for its
/// tag and its capabilities.
pub open spec fn describes<M: Message>(info: MessageInfo) -> bool {
    &&& call_ensures(M::type_tag_, (), info.tag)
    &&& call_ensures(M::is_clonable, (), info.clonable)
    &&& call_ensures(M::is_shared, (), info.shared)
}

/// The envelope that a payload travels in under `info`.
pub open spec fn wrapped<P>(info: MessageInfo, payload: P) -> EnvelopeView<P> {
    EnvelopeView { tag: info.tag@, clonable: info.clonable, shared: info.shared, payload }
}

/// Whether `e` is the message `m` in its envelope: tagged and flagged as its
/// type answered, and holding `m`.
pub open spec fn wraps<M: Message>(e: Envelope<M>, m: M) -> bool {
    exists|info: MessageInfo| describes::<M>(info) && e@ == #[trigger] wrapped(info, m)
}

/// Whether an envelope may be opened as the type with the tag `expected`.
pub open spec fn opens_as<P>(e: EnvelopeView<P>, expected: Seq<char>) -> bool {
    e.tag == expected
}

/// What opening an envelope as the type with the tag `expected` yields: the
/// payload where the tags agree, the envelope itself where they do not.
pub open spec fn opened<P>(e: Envelope<P>, expected: Seq<char>) -> Result<P, Envelope<P>> {
    if opens_as(e@, expected) {
        Ok(e.payload)
    } else {
        Err(e)
    }
}

/// The copy of an envelope, given the copy `copy` of its payload: the same
/// tag and capabilities around the copy, and nothing where the envelope is
/// not clonable or the payload gave no copy.
pub open spec fn cloned_view<P>(e: EnvelopeView<P>, copy: Option<P>) -> Option<EnvelopeView<P>> {
    match copy {
        Some(payload) if e.clonable => Some(EnvelopeView { payload, ..e }),
        _ => None,
    }
}

impl MessageInfo {
    /// Asks the type `M` for its tag and its capabilities.
    pub fn of<M: Message>() -> (info: MessageInfo)
        ensures
            describes::<M>(info),
    {
        MessageInfo { tag: M::type_tag_(), clonable: M::is_clonable(), shared: M::is_shared() }
    }

    /// Puts a payload into an envelope with this tag and these capabilities.
    pub fn wrap<P>(&self, payload: P) -> (e: Envelope<P>)
        ensures
            e@ == wrapped(*self, payload),
    {
        Envelope { tag: self.tag.clone(), clonable: self.clonable, shared: self.shared, payload }
    }
}

/// Wraps a message into its envelope.
pub fn into_boxed<M: Message>(m: M) -> (e: Envelope<M>)
    ensures
        wraps(e, m),
{
    let info = MessageInfo::of::<M>();
    let e = info.wrap(m);
    assert(describes::<M>(info) && e@ == wrapped(info, m));
    e
}

impl<P> Envelope<P> {
    pub fn new(tag: TypeTag, clonable: bool, shared: bool, payload: P) -> (e: Self)
        ensures
            e == (Envelope { tag, clonable, shared, payload }),
    {
        Envelope { tag, clonable, shared, payload }
    }

    /// The tag of the wrapped value.
    pub fn type_tag(&self) -> (t: TypeTag)
        ensures
            t@ == self@.tag,
    {
        self.tag.clone()
    }

    pub fn is_clonable(&self) -> (b: bool)
        ensures
            b == self@.clonable,
    {
        self.clonable
    }

    pub fn is_shared(&self) -> (b: bool)
        ensures
            b == self@.shared,
    {
        self.shared
    }

    /// Opens the envelope as the type with the tag `expected`.
    ///
    /// Succeeds exactly when the envelope's tag is `expected`, and then hands
    /// out the payload. Otherwise the envelope comes back untouched.
    pub fn downcast_as(self, expected: &TypeTag) -> (r: Result<P, Envelope<P>>)
        ensures
            r == opened(self, expected@),
    {
        if self.tag == *expected {
            Ok(self.payload)
        } else {
            Err(self)
        }
    }

    /// Opens the envelope as a `T`: asks `T` for its tag and opens the
    /// envelope as the type with that tag.
    pub fn downcast<T: TypeTagged>(self) -> (r: Result<P, Envelope<P>>)
        ensures
            exists|expected: TypeTag| #[trigger]
                call_ensures(T::type_tag_, (), expected) && r == opened(self, expected@),
    {
        let expected = T::type_tag_();
        let r = self.downcast_as(&expected);
        assert(call_ensures(T::type_tag_, (), expected) && r == opened(self, expected@));
        r
    }
}

impl<M: Message> Envelope<M> {
    /// A second envelope around a copy of the payload.
    ///
    /// An envelope that is not clonable gives none, and its payload is not
    /// asked. Otherwise the payload is asked for a copy, and the result is
    /// the envelope of that copy, or nothing where it gave none.
    pub fn try_clone_boxed(&self) -> (c: Option<Envelope<M>>)
        ensures
            !self@.clonable ==> c.is_none(),
            self@.clonable ==> exists|copy: Option<M>| #[trigger]
                call_ensures(M::try_clone, (&self.payload,), copy) && (match c {
                    Some(e) => Some(e@),
                    None => None,
                }) == cloned_view(self@, copy),
    {
        if !self.clonable {
            return None;
        }
        let copy = self.payload.try_clone();
        let c = match copy {
            Some(m) => Some(
                Envelope { tag: self.tag.clone(), clonable: self.clonable, shared: self.shared, payload: m },
            ),
            None => None,
        };
        assert(call_ensures(M::try_clone, (&self.payload,), copy) && (match c {
            Some(e) => Some(e@),
            None => None,
        }) == cloned_view(self@, copy));
        c
    }

    /// Clones the payload into `slot`; returns whether it did.
    ///
    /// Nothing is done for an envelope that is not clonable, nor where the
    /// payload gives no copy.
    pub fn try_clone_into(&self, slot: &mut Option<M>) -> (done: bool)
        ensures
            !self@.clonable ==> !done && *final(slot) == *old(slot),
            self@.clonable ==> exists|copy: Option<M>| #[trigger]
                call_ensures(M::try_clone, (&self.payload,), copy) && done == copy.is_some()
                    && *final(slot) == if done {
                    copy
                } else {
                    *old(slot)
                },
    {
        if !self.clonable {
            return false;
        }
        let copy = self.payload.try_clone();
        let done = match copy {
            Some(m) => {
                *slot = Some(m);
                true
            },
            None => false,
        };
        assert(call_ensures(M::try_clone, (&self.payload,), copy) && done == copy.is_some() && *slot
            == if done {
            copy
        } else {
            *old(slot)
        });
        done
    }
}

/// Whether the type `M` is clonable: whenever a value is asked for a copy,
/// it gives one, and the copy is equal to the value.
pub open spec fn clonable<M: Message>() -> bool {
    forall|m: M, copy: Option<M>| #[trigger]
        call_ensures(M::try_clone, (&m,), copy) ==> copy == Some(m)
}

/// For a clonable type, the copy of a clonable envelope opens as the type of
/// the envelope and yields a value equal to the payload that was copied.
///
/// `copy` is what the payload answered when it was asked for a copy, and `c`
/// the envelope made of it.
pub proof fn lemma_clone_round_trip<M: Message>(e: Envelope<M>, copy: Option<M>, c: Envelope<M>)
    requires
        clonable::<M>(),
        e@.clonable,
        call_ensures(M::try_clone, (&e.payload,), copy),
        Some(c@) == cloned_view(e@, copy),
    ensures
        opened(c, e@.tag) == Ok::<M, Envelope<M>>(e.payload),
{
}

/// A copy of an envelope opens as the same types as the envelope, and as no
/// others: it carries the envelope's tag.
pub proof fn lemma_copy_keeps_tag<P>(e: EnvelopeView<P>, copy: P, expected: Seq<char>)
    requires
        e.clonable,
    ensures
        cloned_view(e, Some(copy)) matches Some(c) && c.payload == copy && (opens_as(c, expected)
            <==> opens_as(e, expected)),
{
}

/// The texts of a list of tags.
pub open spec fn tag_texts(tags: Seq<TypeTag>) -> Seq<Seq<char>> {
    tags.map_values(|t: TypeTag| t@)
}

/// The texts in `args`, separated by commas.
pub open spec fn join_tags(args: Seq<Seq<char>>) -> Seq<char>
    decreases args.len(),
{
    if args.len() == 0 {
        Seq::<char>::empty()
    } else if args.len() == 1 {
        args[0]
    } else {
        args[0] + seq![','] + join_tags(args.drop_first())
    }
}

/// The tag of a generic type: its name, and in angle brackets the tags of
/// its type arguments. A type without type arguments has its name for a tag.
pub open spec fn generic_tag(name: Seq<char>, args: Seq<Seq<char>>) -> Seq<char> {
    if args.len() == 0 {
        name
    } else {
        name + seq!['<'] + join_tags(args) + seq!['>']
    }
}

/// Appending one more text to a list appends a comma and the text to the
/// joined list, or the text alone where the list was empty.
pub proof fn lemma_join_push(args: Seq<Seq<char>>, last: Seq<char>)
    ensures
        join_tags(args.push(last)) == if args.len() == 0 {
            last
        } else {
            join_tags(args) + seq![','] + last
        },
    decreases args.len(),
{
    let all = args.push(last);
    if args.len() == 0 {
        assert(all[0] == last);
    } else if args.len() == 1 {
        assert(all.drop_first() =~= seq![last]);
        assert(join_tags(seq![last]) == last);
        assert(all[0] == args[0]);
    } else {
        lemma_join_push(args.drop_first(), last);
        assert(all.drop_first() =~= args.drop_first().push(last));
        assert(all[0] == args[0]);
        assert(join_tags(all) =~= join_tags(args) + seq![','] + last);
    }
}

/// Builds the tag of a generic type from its name and the tags of its type
/// arguments.
pub fn generic_type_tag(name: &str, args: &Vec<TypeTag>) -> (t: TypeTag)
    ensures
        t@ == generic_tag(name@, tag_texts(args@)),
{
    let mut out: String = name.to_owned();
    if args.len() == 0 {
        return out;
    }
    proof {
        reveal_strlit("<");
        reveal_strlit(",");
        reveal_strlit(">");
    }
    out.append("<");
    assert(out@ =~= name@ + seq!['<']);
    let ghost texts = tag_texts(args@);
    let mut i: usize = 0;
    while i < args.len()
        invariant
            i <= args.len(),
            texts == tag_texts(args@),
            out@ == name@ + seq!['<'] + join_tags(texts.take(i as int)),
            ","@ == seq![','],
        decreases args.len() - i,
    {
        let ghost before = out@;
        if i > 0 {
            out.append(",");
        }
        out.append(args[i].as_str());
        proof {
            let prefix = texts.take(i as int);
            assert(texts.take(i as int + 1) =~= prefix.push(texts[i as int]));
            assert(texts[i as int] == args@[i as int]@);
            lemma_join_push(prefix, texts[i as int]);
            assert(out@ =~= name@ + seq!['<'] + join_tags(texts.take(i as int + 1)));
        }
        i += 1;
    }
    assert(texts.take(i as int) =~= texts);
    out.append(">");
    assert(out@ =~= name@ + seq!['<'] + join_tags(texts) + seq!['>']);
    out
}

} // verus!
