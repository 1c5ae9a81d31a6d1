//! What deriving a message or an error type amounts to.
//!
//! The functions here take a type declaration as plain data (its name, its
//! attributes and its generic parameters) and work out what the derived impls
//! hold: the pattern of the type's tag and the capabilities it declared.
//! Turning that into tokens is the caller's part.

use crate::envelop::{generic_tag, generic_type_tag, tag_texts, TypeTag};
use vstd::prelude::*;

verus! {

/// The capabilities that a message type declares.
#[derive(Debug)]
pub struct Tags {
    pub has_clone: bool,
    pub has_shared: bool,
}

impl Default for Tags {
    fn default() -> (t: Tags)
        ensures
            !t.has_clone,
            !t.has_shared,
    {
        Tags { has_clone: false, has_shared: false }
    }
}

/// Whether one of `idents` is the word `word`.
pub open spec fn names(idents: Seq<String>, word: Seq<char>) -> bool {
    exists|i: int| 0 <= i < idents.len() && #[trigger] idents[i]@ == word
}

impl Tags {
    /// Adds the capabilities of `other`: each is declared afterwards if it was
    /// declared on either side.
    pub fn add(&mut self, other: Tags)
        ensures
            final(self).has_clone == (old(self).has_clone || other.has_clone),
            final(self).has_shared == (old(self).has_shared || other.has_shared),
    {
        self.has_clone = self.has_clone || other.has_clone;
        self.has_shared = self.has_shared || other.has_shared;
    }

    /// Reads the capabilities off the words of a `message(..)` attribute:
    /// `clone` and `shared` declare one each, any other word declares nothing.
    pub fn parse(idents: &Vec<String>) -> (t: Tags)
        ensures
            t.has_clone == names(idents@, "clone"@),
            t.has_shared == names(idents@, "shared"@),
    {
        let mut has_shared = false;
        let mut has_clone = false;
        let shared_word: String = "shared".to_owned();
        let clone_word: String = "clone".to_owned();
        proof {
            reveal_strlit("shared");
            reveal_strlit("clone");
            assert("shared"@.len() == 6);
            assert("clone"@.len() == 5);
        }
        let mut i: usize = 0;
        while i < idents.len()
            invariant
                i <= idents.len(),
                shared_word@ == "shared"@,
                clone_word@ == "clone"@,
                "shared"@ != "clone"@,
                has_clone == names(idents@.take(i as int), "clone"@),
                has_shared == names(idents@.take(i as int), "shared"@),
            decreases idents.len() - i,
        {
            let ghost before = idents@.take(i as int);
            let ghost after = idents@.take(i as int + 1);
            assert(after =~= before.push(idents@[i as int]));
            if idents[i] == shared_word {
                has_shared = true;
                assert(after[i as int]@ == "shared"@);
            } else if idents[i] == clone_word {
                has_clone = true;
                assert(after[i as int]@ == "clone"@);
            }
            proof {
                lemma_names_push(before, idents@[i as int], "clone"@);
                lemma_names_push(before, idents@[i as int], "shared"@);
            }
            i += 1;
        }
        assert(idents@.take(i as int) =~= idents@);
        Tags { has_clone, has_shared }
    }
}

/// A word is among a list with one more item exactly when it was among the
/// list or is the new item.
pub proof fn lemma_names_push(idents: Seq<String>, next: String, word: Seq<char>)
    ensures
        names(idents.push(next), word) == (names(idents, word) || next@ == word),
{
    let all = idents.push(next);
    if names(idents, word) {
        let i = choose|i: int| 0 <= i < idents.len() && #[trigger] idents[i]@ == word;
        assert(all[i]@ == word);
    }
    if next@ == word {
        assert(all[idents.len() as int]@ == word);
    }
    if names(all, word) {
        let i = choose|i: int| 0 <= i < all.len() && #[trigger] all[i]@ == word;
        if i < idents.len() {
            assert(idents[i]@ == word);
        }
    }
}

/// An attribute of a type declaration, as far as deriving looks at it.
#[derive(Debug)]
pub enum Attr {
    /// `message(..)`, with the words in its brackets.
    Message(Vec<String>),
    /// `type_tag(..)`, with the string literals in its brackets.
    TypeTag(Vec<String>),
    /// `namespace(..)`, with the string literals in its brackets.
    Namespace(Vec<String>),
    /// Any other attribute.
    Other,
}

/// A generic parameter of a type declaration.
#[derive(Debug)]
pub enum GenericParam {
    Lifetime,
    /// A type parameter, with its name.
    Type(String),
    Const,
}

/// A type declaration, as far as deriving looks at it.
#[derive(Debug)]
pub struct DeriveInput {
    pub ident: String,
    pub attrs: Vec<Attr>,
    pub generics: Vec<GenericParam>,
}

/// The derived tag of a type.
///
/// `name` is the name at the head of the tag, `pattern` the tag with `{}` in
/// place of each type argument, and `params` names the type parameters whose
/// tags fill the places, in order.
#[derive(Debug)]
pub struct TypeTagPart {
    pub name: String,
    pub pattern: String,
    pub params: Vec<String>,
}

impl TypeTagPart {
    /// Whether this is the derived tag of a type with the name `ident`, the
    /// declared tag `type_tag`, the declared namespace `namespace` and the
    /// generic parameters `generics`.
    pub open spec fn is_tag_of(
        self,
        ident: Seq<char>,
        type_tag: Option<Seq<char>>,
        namespace: Option<Seq<char>>,
        generics: Seq<GenericParam>,
    ) -> bool {
        &&& self.name@ == tag_name(ident, type_tag, namespace)
        &&& self.pattern@ == tag_pattern(self.name@, generics)
        &&& tag_texts(self.params@) == type_params(generics)
    }
}

/// The derived impls of a message type.
#[derive(Debug)]
pub struct MessageImpl {
    pub type_tag: TypeTagPart,
    pub has_shared: bool,
    pub has_clone: bool,
}

/// The name at the head of a type's tag: the declared tag where there is one,
/// else the type's name, behind the namespace and `::` where one is declared.
pub open spec fn tag_name(
    ident: Seq<char>,
    type_tag: Option<Seq<char>>,
    namespace: Option<Seq<char>>,
) -> Seq<char> {
    match type_tag {
        Some(tt) => tt,
        None => match namespace {
            Some(ns) => ns + seq![':', ':'] + ident,
            None => ident,
        },
    }
}

/// The names of the type parameters among `generics`, in order.
pub open spec fn type_params(generics: Seq<GenericParam>) -> Seq<Seq<char>>
    decreases generics.len(),
{
    if generics.len() == 0 {
        Seq::<Seq<char>>::empty()
    } else {
        let rest = type_params(generics.drop_last());
        match generics.last() {
            GenericParam::Type(name) => rest.push(name@),
            _ => rest,
        }
    }
}

/// Whether none of `generics` is a const parameter.
pub open spec fn no_const_param(generics: Seq<GenericParam>) -> bool {
    forall|i: int| 0 <= i < generics.len() ==> !(#[trigger] generics[i] is Const)
}

/// `n` places for type arguments.
pub open spec fn places(n: nat) -> Seq<Seq<char>> {
    Seq::new(n, |i: int| seq!['{', '}'])
}

/// The pattern of a type's tag: its name and one place for each type
/// parameter.
pub open spec fn tag_pattern(name: Seq<char>, generics: Seq<GenericParam>) -> Seq<char> {
    generic_tag(name, places(type_params(generics).len()))
}

/// The first literal of the last `type_tag(..)` attribute, if there is one.
pub open spec fn declared_type_tag(attrs: Seq<Attr>) -> Option<Seq<char>>
    decreases attrs.len(),
{
    if attrs.len() == 0 {
        None
    } else {
        match attrs.last() {
            Attr::TypeTag(lits) => Some(lits@[0]@),
            _ => declared_type_tag(attrs.drop_last()),
        }
    }
}

/// The first literal of the last `namespace(..)` attribute, if there is one.
pub open spec fn declared_namespace(attrs: Seq<Attr>) -> Option<Seq<char>>
    decreases attrs.len(),
{
    if attrs.len() == 0 {
        None
    } else {
        match attrs.last() {
            Attr::Namespace(lits) => Some(lits@[0]@),
            _ => declared_namespace(attrs.drop_last()),
        }
    }
}

/// Whether some `message(..)` attribute among `attrs` holds the word `word`.
pub open spec fn declares(attrs: Seq<Attr>, word: Seq<char>) -> bool {
    exists|i: int|
        0 <= i < attrs.len() && (#[trigger] attrs[i] matches Attr::Message(idents) && names(
            idents@,
            word,
        ))
}

/// Whether each `type_tag(..)` and `namespace(..)` attribute holds a literal.
pub open spec fn literals_present(attrs: Seq<Attr>) -> bool {
    forall|i: int|
        0 <= i < attrs.len() ==> match #[trigger] attrs[i] {
            Attr::TypeTag(lits) => lits@.len() > 0,
            Attr::Namespace(lits) => lits@.len() > 0,
            _ => true,
        }
}

/// Whether a type declaration can be derived from: its tag attributes hold a
/// literal each, and it has no const parameter.
pub open spec fn derivable(input: DeriveInput) -> bool {
    literals_present(input.attrs@) && no_const_param(input.generics@)
}

/// Tells whether `input` can be derived from.
pub fn is_derivable(input: &DeriveInput) -> (ok: bool)
    ensures
        ok == derivable(*input),
{
    let mut i: usize = 0;
    while i < input.attrs.len()
        invariant
            i <= input.attrs.len(),
            literals_present(input.attrs@.take(i as int)),
        decreases input.attrs.len() - i,
    {
        let empty = match &input.attrs[i] {
            Attr::TypeTag(lits) => lits.len() == 0,
            Attr::Namespace(lits) => lits.len() == 0,
            _ => false,
        };
        if empty {
            return false;
        }
        assert(input.attrs@.take(i as int + 1) =~= input.attrs@.take(i as int).push(
            input.attrs@[i as int],
        ));
        i += 1;
    }
    assert(input.attrs@.take(i as int) =~= input.attrs@);
    let mut j: usize = 0;
    while j < input.generics.len()
        invariant
            j <= input.generics.len(),
            no_const_param(input.generics@.take(j as int)),
        decreases input.generics.len() - j,
    {
        let is_const = match &input.generics[j] {
            GenericParam::Const => true,
            _ => false,
        };
        if is_const {
            return false;
        }
        assert(input.generics@.take(j as int + 1) =~= input.generics@.take(j as int).push(
            input.generics@[j as int],
        ));
        j += 1;
    }
    assert(input.generics@.take(j as int) =~= input.generics@);
    true
}

/// The tag that a type gets.
///
/// The name at its head is `type_tag` where that is given, else `ident`,
/// behind `namespace` where that is given. Each type parameter adds a place to
/// the pattern; lifetimes add nothing. A const parameter is not provided for.
pub fn type_tag_part(
    ident: &str,
    type_tag: Option<String>,
    namespace: Option<String>,
    generics: &Vec<GenericParam>,
) -> (part: TypeTagPart)
    requires
        no_const_param(generics@),
    ensures
        part.is_tag_of(
            ident@,
            match type_tag {
                Some(t) => Some(t@),
                None => None,
            },
            match namespace {
                Some(n) => Some(n@),
                None => None,
            },
            generics@,
        ),
{
    let name: String = match type_tag {
        Some(tt) => tt,
        None => match namespace {
            Some(ns) => {
                proof {
                    reveal_strlit("::");
                }
                let mut full = ns;
                full.append("::");
                full.append(ident);
                assert("::"@ =~= seq![':', ':']);
                full
            },
            None => ident.to_owned(),
        },
    };
    let mut params: Vec<String> = Vec::new();
    let mut holes: Vec<TypeTag> = Vec::new();
    let mut i: usize = 0;
    assert(generics@.take(0) =~= Seq::<GenericParam>::empty());
    assert(tag_texts(params@) =~= Seq::<Seq<char>>::empty());
    assert(tag_texts(holes@) =~= places(0));
    while i < generics.len()
        invariant
            i <= generics.len(),
            tag_texts(params@) == type_params(generics@.take(i as int)),
            tag_texts(holes@) == places(params@.len()),
        decreases generics.len() - i,
    {
        let ghost before = generics@.take(i as int);
        let ghost after = generics@.take(i as int + 1);
        assert(after.drop_last() =~= before);
        assert(after.last() == generics@[i as int]);
        match &generics[i] {
            GenericParam::Type(param) => {
                let ghost old_params = params@;
                let ghost old_holes = holes@;
                params.push(param.clone());
                proof {
                    reveal_strlit("{}");
                    assert("{}"@ =~= seq!['{', '}']);
                }
                holes.push("{}".to_owned());
                assert(tag_texts(params@) =~= tag_texts(old_params).push(param@));
                assert(tag_texts(holes@) =~= tag_texts(old_holes).push(seq!['{', '}']));
                assert(holes@.len() == params@.len()) by {
                    assert(tag_texts(old_holes).len() == old_holes.len());
                    assert(places(old_params.len()).len() == old_params.len());
                }
                assert(tag_texts(holes@) =~= places(params@.len()));
            },
            _ => {},
        }
        i += 1;
    }
    assert(generics@.take(i as int) =~= generics@);
    let pattern = generic_type_tag(name.as_str(), &holes);
    assert(places(params@.len()).len() == type_params(generics@).len());
    TypeTagPart { name, pattern, params }
}

/// What deriving a message type yields.
///
/// The capabilities are those of all `message(..)` attributes together. The
/// tag goes by the last `type_tag(..)` attribute, else by the type's name and
/// the last `namespace(..)` attribute.
pub fn derive_message(input: &DeriveInput) -> (out: MessageImpl)
    requires
        derivable(*input),
    ensures
        out.has_clone == declares(input.attrs@, "clone"@),
        out.has_shared == declares(input.attrs@, "shared"@),
        out.type_tag.is_tag_of(
            input.ident@,
            declared_type_tag(input.attrs@),
            declared_namespace(input.attrs@),
            input.generics@,
        ),
{
    let mut tags = Tags::default();
    let mut type_tag: Option<String> = None;
    let mut namespace: Option<String> = None;
    let mut i: usize = 0;
    assert(input.attrs@.take(0) =~= Seq::<Attr>::empty());
    while i < input.attrs.len()
        invariant
            i <= input.attrs.len(),
            literals_present(input.attrs@),
            tags.has_clone == declares(input.attrs@.take(i as int), "clone"@),
            tags.has_shared == declares(input.attrs@.take(i as int), "shared"@),
            declared_type_tag(input.attrs@.take(i as int)) == match type_tag {
                Some(t) => Some(t@),
                None => None,
            },
            declared_namespace(input.attrs@.take(i as int)) == match namespace {
                Some(n) => Some(n@),
                None => None,
            },
        decreases input.attrs.len() - i,
    {
        let ghost before = input.attrs@.take(i as int);
        let ghost after = input.attrs@.take(i as int + 1);
        assert(after.drop_last() =~= before);
        assert(after.last() == input.attrs@[i as int]);
        proof {
            lemma_declares_push(before, input.attrs@[i as int], "clone"@);
            lemma_declares_push(before, input.attrs@[i as int], "shared"@);
            assert(after =~= before.push(input.attrs@[i as int]));
        }
        match &input.attrs[i] {
            Attr::Message(idents) => {
                let tt = Tags::parse(idents);
                tags.add(tt);
            },
            Attr::TypeTag(lits) => {
                type_tag = Some(lits[0].clone());
            },
            Attr::Namespace(lits) => {
                namespace = Some(lits[0].clone());
            },
            Attr::Other => {},
        }
        i += 1;
    }
    assert(input.attrs@.take(i as int) =~= input.attrs@);
    let type_tag_part = type_tag_part(input.ident.as_str(), type_tag, namespace, &input.generics);
    MessageImpl { type_tag: type_tag_part, has_shared: tags.has_shared, has_clone: tags.has_clone }
}

/// A word is declared by a list of attributes with one more attribute
/// exactly when it was declared by the list or the new attribute is a
/// `message(..)` that holds it.
pub proof fn lemma_declares_push(attrs: Seq<Attr>, next: Attr, word: Seq<char>)
    ensures
        declares(attrs.push(next), word) == (declares(attrs, word) || (next matches Attr::Message(
            idents,
        ) && names(idents@, word))),
{
    let all = attrs.push(next);
    if declares(attrs, word) {
        let i = choose|i: int|
            0 <= i < attrs.len() && (#[trigger] attrs[i] matches Attr::Message(idents) && names(
                idents@,
                word,
            ));
        assert(all[i] == attrs[i]);
    }
    if next matches Attr::Message(idents) && names(idents@, word) {
        assert(all[attrs.len() as int] == next);
    }
    if declares(all, word) {
        let i = choose|i: int|
            0 <= i < all.len() && (#[trigger] all[i] matches Attr::Message(idents) && names(
                idents@,
                word,
            ));
        if i < attrs.len() {
            assert(attrs[i] == all[i]);
        }
    }
}

/// What deriving an error type yields: its tag, by the same rule as for a
/// message type. `message(..)` attributes are not looked at.
pub fn derive_error(input: &DeriveInput) -> (out: TypeTagPart)
    requires
        derivable(*input),
    ensures
        out.is_tag_of(
            input.ident@,
            declared_type_tag(input.attrs@),
            declared_namespace(input.attrs@),
            input.generics@,
        ),
{
    let mut type_tag: Option<String> = None;
    let mut namespace: Option<String> = None;
    let mut i: usize = 0;
    assert(input.attrs@.take(0) =~= Seq::<Attr>::empty());
    while i < input.attrs.len()
        invariant
            i <= input.attrs.len(),
            literals_present(input.attrs@),
            declared_type_tag(input.attrs@.take(i as int)) == match type_tag {
                Some(t) => Some(t@),
                None => None,
            },
            declared_namespace(input.attrs@.take(i as int)) == match namespace {
                Some(n) => Some(n@),
                None => None,
            },
        decreases input.attrs.len() - i,
    {
        let ghost before = input.attrs@.take(i as int);
        let ghost after = input.attrs@.take(i as int + 1);
        assert(after.drop_last() =~= before);
        assert(after.last() == input.attrs@[i as int]);
        match &input.attrs[i] {
            Attr::TypeTag(lits) => {
                type_tag = Some(lits[0].clone());
            },
            Attr::Namespace(lits) => {
                namespace = Some(lits[0].clone());
            },
            _ => {},
        }
        i += 1;
    }
    assert(input.attrs@.take(i as int) =~= input.attrs@);
    type_tag_part(input.ident.as_str(), type_tag, namespace, &input.generics)
}

} // verus!
