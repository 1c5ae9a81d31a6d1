//! Views of a strategy and of a receiver that are guarded by type tags.
//!
//! A view is made for certain types and hands out what is behind it only to
//! a caller that names the same types. A cast that names another type yields
//! nothing.

use crate::envelop::{TypeTag, TypeTagged};
use vstd::prelude::*;

verus! {

/// A view of a strategy that can be recovered only by whoever names the
/// message type it takes.
pub struct AnyReceiver<'a, S> {
    typed: TypeTag,
    data: &'a S,
}

impl<'a, S> AnyReceiver<'a, S> {
    /// The tag of the message type that the view was made for.
    pub closed spec fn token(&self) -> Seq<char> {
        self.typed@
    }

    /// The strategy behind the view.
    pub closed spec fn target(&self) -> &'a S {
        self.data
    }

    /// What a cast to the type with the tag `expected` yields: the strategy
    /// where the view was made for that type, nothing otherwise.
    pub open spec fn cast(&self, expected: Seq<char>) -> Option<&'a S> {
        if self.token() == expected {
            Some(self.target())
        } else {
            None
        }
    }

    /// A view of `rcvr` as a strategy that takes messages of the type with
    /// the tag `tag`.
    pub fn of_tag(rcvr: &'a S, tag: TypeTag) -> (any: Self)
        ensures
            any.token() == tag@,
            any.target() == rcvr,
    {
        AnyReceiver { typed: tag, data: rcvr }
    }

    /// A view of `rcvr` as a strategy that takes messages of type `M`.
    pub fn new<M: TypeTagged>(rcvr: &'a S) -> (any: Self)
        ensures
            exists|tag: TypeTag| #[trigger] call_ensures(M::type_tag_, (), tag) && any.token() == tag@,
            any.target() == rcvr,
    {
        let tag = M::type_tag_();
        assert(call_ensures(M::type_tag_, (), tag));
        AnyReceiver { typed: tag, data: rcvr }
    }

    /// The strategy, if the view was made for the type with the tag
    /// `expected`; nothing for any other tag.
    pub fn cast_tag(&self, expected: &TypeTag) -> (s: Option<&'a S>)
        ensures
            s == self.cast(expected@),
    {
        if self.typed == *expected {
            Some(self.data)
        } else {
            None
        }
    }

    /// The strategy, if `M` is the message type that the view was made for.
    pub fn cast_send_typed<M: TypeTagged>(&self) -> (s: Option<&'a S>)
        ensures
            exists|expected: TypeTag| #[trigger]
                call_ensures(M::type_tag_, (), expected) && s == self.cast(expected@),
    {
        let expected = M::type_tag_();
        let s = self.cast_tag(&expected);
        assert(call_ensures(M::type_tag_, (), expected) && s == self.cast(expected@));
        s
    }
}

/// A view of a receiver that can be recovered only by whoever names the
/// response type, the error type, or both.
pub struct AnyWrapperRef<'a, W> {
    wrapper_r: TypeTag,
    wrapper_e: TypeTag,
    data: &'a W,
}

impl<'a, W> AnyWrapperRef<'a, W> {
    /// The tag of the response type that the view was made for.
    pub closed spec fn ret_token(&self) -> Seq<char> {
        self.wrapper_r@
    }

    /// The tag of the error type that the view was made for.
    pub closed spec fn error_token(&self) -> Seq<char> {
        self.wrapper_e@
    }

    /// The receiver behind the view.
    pub closed spec fn target(&self) -> &'a W {
        self.data
    }

    /// The receiver where `matched` holds, nothing otherwise.
    pub open spec fn cast(&self, matched: bool) -> Option<&'a W> {
        if matched {
            Some(self.target())
        } else {
            None
        }
    }

    /// A view of `rcvr` as a receiver that answers with the type tagged
    /// `ret` and fails with the type tagged `error`.
    pub fn of_tags(rcvr: &'a W, ret: TypeTag, error: TypeTag) -> (any: Self)
        ensures
            any.ret_token() == ret@,
            any.error_token() == error@,
            any.target() == rcvr,
    {
        AnyWrapperRef { wrapper_r: ret, wrapper_e: error, data: rcvr }
    }

    /// A view of `rcvr` as a receiver that answers with `R` and fails with
    /// `E`.
    pub fn new<R: TypeTagged, E: TypeTagged>(rcvr: &'a W) -> (any: Self)
        ensures
            exists|ret: TypeTag| #[trigger]
                call_ensures(R::type_tag_, (), ret) && any.ret_token() == ret@,
            exists|error: TypeTag| #[trigger]
                call_ensures(E::type_tag_, (), error) && any.error_token() == error@,
            any.target() == rcvr,
    {
        let ret = R::type_tag_();
        let error = E::type_tag_();
        assert(call_ensures(R::type_tag_, (), ret));
        assert(call_ensures(E::type_tag_, (), error));
        AnyWrapperRef { wrapper_r: ret, wrapper_e: error, data: rcvr }
    }

    /// The receiver, if its response type has the tag `ret`.
    pub fn cast_ret_tag(&self, ret: &TypeTag) -> (w: Option<&'a W>)
        ensures
            w == self.cast(self.ret_token() == ret@),
    {
        if self.wrapper_r == *ret {
            Some(self.data)
        } else {
            None
        }
    }

    /// The receiver, if its error type has the tag `error`.
    pub fn cast_error_tag(&self, error: &TypeTag) -> (w: Option<&'a W>)
        ensures
            w == self.cast(self.error_token() == error@),
    {
        if self.wrapper_e == *error {
            Some(self.data)
        } else {
            None
        }
    }

    /// The receiver, if its response type has the tag `ret` and its error
    /// type the tag `error`.
    pub fn cast_tags(&self, ret: &TypeTag, error: &TypeTag) -> (w: Option<&'a W>)
        ensures
            w == self.cast(self.ret_token() == ret@ && self.error_token() == error@),
    {
        if self.wrapper_r == *ret && self.wrapper_e == *error {
            Some(self.data)
        } else {
            None
        }
    }

    /// The receiver, if `R` is its response type.
    pub fn cast_ret_only<R: TypeTagged>(&self) -> (w: Option<&'a W>)
        ensures
            exists|ret: TypeTag| #[trigger]
                call_ensures(R::type_tag_, (), ret) && w == self.cast(self.ret_token() == ret@),
    {
        let ret = R::type_tag_();
        let w = self.cast_ret_tag(&ret);
        assert(call_ensures(R::type_tag_, (), ret) && w == self.cast(self.ret_token() == ret@));
        w
    }

    /// The receiver, if `E` is its error type.
    pub fn cast_error_only<E: TypeTagged>(&self) -> (w: Option<&'a W>)
        ensures
            exists|error: TypeTag| #[trigger]
                call_ensures(E::type_tag_, (), error) && w == self.cast(
                    self.error_token() == error@,
                ),
    {
        let error = E::type_tag_();
        let w = self.cast_error_tag(&error);
        assert(call_ensures(E::type_tag_, (), error) && w == self.cast(
            self.error_token() == error@,
        ));
        w
    }

    /// The receiver, if `R` is its response type and `E` its error type.
    pub fn cast_ret_and_error<R: TypeTagged, E: TypeTagged>(&self) -> (w: Option<&'a W>)
        ensures
            exists|ret: TypeTag, error: TypeTag|
                #![trigger call_ensures(R::type_tag_, (), ret), call_ensures(E::type_tag_, (), error)]
                call_ensures(R::type_tag_, (), ret) && call_ensures(E::type_tag_, (), error) && w
                    == self.cast(self.ret_token() == ret@ && self.error_token() == error@),
    {
        let ret = R::type_tag_();
        let error = E::type_tag_();
        let w = self.cast_tags(&ret, &error);
        assert(call_ensures(R::type_tag_, (), ret) && call_ensures(E::type_tag_, (), error) && w
            == self.cast(self.ret_token() == ret@ && self.error_token() == error@));
        w
    }
}

} // verus!
