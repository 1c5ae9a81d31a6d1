//! The message types that come with the bus: the unit type and the
//! fixed-width integers. Each is tagged with its name, can be cloned and is
//! not shared.

use crate::envelop::{Message, TypeTag, TypeTagged};
use vstd::prelude::*;

verus! {

impl TypeTagged for () {
    fn type_tag_() -> (t: TypeTag)
        ensures
            t@ == "()"@,
    {
        "()".to_owned()
    }

    fn type_tag(&self) -> (t: TypeTag)
        ensures
            t@ == "()"@,
    {
        "()".to_owned()
    }
}

impl Message for () {
    fn is_clonable() -> (b: bool)
        ensures
            b,
    {
        true
    }

    fn is_shared() -> (b: bool)
        ensures
            !b,
    {
        false
    }

    fn try_clone(&self) -> (c: Option<Self>)
        ensures
            c == Some(()),
    {
        Some(())
    }
}

impl TypeTagged for u8 {
    fn type_tag_() -> (t: TypeTag)
        ensures
            t@ == "u8"@,
    {
        "u8".to_owned()
    }

    fn type_tag(&self) -> (t: TypeTag)
        ensures
            t@ == "u8"@,
    {
        "u8".to_owned()
    }
}

impl Message for u8 {
    fn is_clonable() -> (b: bool)
        ensures
            b,
    {
        true
    }

    fn is_shared() -> (b: bool)
        ensures
            !b,
    {
        false
    }

    fn try_clone(&self) -> (c: Option<Self>)
        ensures
            c == Some(*self),
    {
        Some(*self)
    }
}

impl TypeTagged for u16 {
    fn type_tag_() -> (t: TypeTag)
        ensures
            t@ == "u16"@,
    {
        "u16".to_owned()
    }

    fn type_tag(&self) -> (t: TypeTag)
        ensures
            t@ == "u16"@,
    {
        "u16".to_owned()
    }
}

impl Message for u16 {
    fn is_clonable() -> (b: bool)
        ensures
            b,
    {
        true
    }

    fn is_shared() -> (b: bool)
        ensures
            !b,
    {
        false
    }

    fn try_clone(&self) -> (c: Option<Self>)
        ensures
            c == Some(*self),
    {
        Some(*self)
    }
}

impl TypeTagged for u32 {
    fn type_tag_() -> (t: TypeTag)
        ensures
            t@ == "u32"@,
    {
        "u32".to_owned()
    }

    fn type_tag(&self) -> (t: TypeTag)
        ensures
            t@ == "u32"@,
    {
        "u32".to_owned()
    }
}

impl Message for u32 {
    fn is_clonable() -> (b: bool)
        ensures
            b,
    {
        true
    }

    fn is_shared() -> (b: bool)
        ensures
            !b,
    {
        false
    }

    fn try_clone(&self) -> (c: Option<Self>)
        ensures
            c == Some(*self),
    {
        Some(*self)
    }
}

impl TypeTagged for u64 {
    fn type_tag_() -> (t: TypeTag)
        ensures
            t@ == "u64"@,
    {
        "u64".to_owned()
    }

    fn type_tag(&self) -> (t: TypeTag)
        ensures
            t@ == "u64"@,
    {
        "u64".to_owned()
    }
}

impl Message for u64 {
    fn is_clonable() -> (b: bool)
        ensures
            b,
    {
        true
    }

    fn is_shared() -> (b: bool)
        ensures
            !b,
    {
        false
    }

    fn try_clone(&self) -> (c: Option<Self>)
        ensures
            c == Some(*self),
    {
        Some(*self)
    }
}

impl TypeTagged for i8 {
    fn type_tag_() -> (t: TypeTag)
        ensures
            t@ == "i8"@,
    {
        "i8".to_owned()
    }

    fn type_tag(&self) -> (t: TypeTag)
        ensures
            t@ == "i8"@,
    {
        "i8".to_owned()
    }
}

impl Message for i8 {
    fn is_clonable() -> (b: bool)
        ensures
            b,
    {
        true
    }

    fn is_shared() -> (b: bool)
        ensures
            !b,
    {
        false
    }

    fn try_clone(&self) -> (c: Option<Self>)
        ensures
            c == Some(*self),
    {
        Some(*self)
    }
}

impl TypeTagged for i16 {
    fn type_tag_() -> (t: TypeTag)
        ensures
            t@ == "i16"@,
    {
        "i16".to_owned()
    }

    fn type_tag(&self) -> (t: TypeTag)
        ensures
            t@ == "i16"@,
    {
        "i16".to_owned()
    }
}

impl Message for i16 {
    fn is_clonable() -> (b: bool)
        ensures
            b,
    {
        true
    }

    fn is_shared() -> (b: bool)
        ensures
            !b,
    {
        false
    }

    fn try_clone(&self) -> (c: Option<Self>)
        ensures
            c == Some(*self),
    {
        Some(*self)
    }
}

impl TypeTagged for i32 {
    fn type_tag_() -> (t: TypeTag)
        ensures
            t@ == "i32"@,
    {
        "i32".to_owned()
    }

    fn type_tag(&self) -> (t: TypeTag)
        ensures
            t@ == "i32"@,
    {
        "i32".to_owned()
    }
}

impl Message for i32 {
    fn is_clonable() -> (b: bool)
        ensures
            b,
    {
        true
    }

    fn is_shared() -> (b: bool)
        ensures
            !b,
    {
        false
    }

    fn try_clone(&self) -> (c: Option<Self>)
        ensures
            c == Some(*self),
    {
        Some(*self)
    }
}

impl TypeTagged for i64 {
    fn type_tag_() -> (t: TypeTag)
        ensures
            t@ == "i64"@,
    {
        "i64".to_owned()
    }

    fn type_tag(&self) -> (t: TypeTag)
        ensures
            t@ == "i64"@,
    {
        "i64".to_owned()
    }
}

impl Message for i64 {
    fn is_clonable() -> (b: bool)
        ensures
            b,
    {
        true
    }

    fn is_shared() -> (b: bool)
        ensures
            !b,
    {
        false
    }

    fn try_clone(&self) -> (c: Option<Self>)
        ensures
            c == Some(*self),
    {
        Some(*self)
    }
}

} // verus!
