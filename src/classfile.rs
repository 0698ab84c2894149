use vstd::prelude::*;

use std::rc::Rc;

verus! {

/// Why a constant-pool lookup failed.
#[derive(Debug)]
pub enum ParserError {
    InvalidConstantPoolIndex(usize),
    UnexpectedConstantPoolItem(&'static str),
}

/// The constant-pool items that the interpreter consults; every other kind is `Other`.
#[derive(Debug)]
pub enum ConstantPoolItem {
    Utf8 { value: String },
    Integer { bytes: u32 },
    Long { high_bytes: u32, low_bytes: u32 },
    Class { name_index: u16 },
    String { string_index: u16 },
    Fieldref { class_index: u16, name_and_type_index: u16 },
    Methodref { class_index: u16, name_and_type_index: u16 },
    InterfaceMethodref { class_index: u16, name_and_type_index: u16 },
    NameAndType { name_index: u16, descriptor_index: u16 },
    Other { tag: u8 },
}

/// Access flag of a native method.
pub const ACC_NATIVE: u16 = 0x0100;

/// Access flag of a static field or method.
pub const ACC_STATIC: u16 = 0x0008;

/// The bytecode of a method and its frame sizes.
#[derive(Debug)]
pub struct CodeAttribute {
    pub code: Vec<u8>,
    pub max_locals: u16,
    pub max_stack: u16,
}

#[derive(Debug)]
pub enum Attribute {
    Code(Rc<CodeAttribute>),
    Other,
}

#[derive(Debug)]
pub struct Field {
    pub access_flags: u16,
    pub name: String,
    pub descriptor: String,
}

#[derive(Debug)]
pub struct Method {
    pub access_flags: u16,
    pub name: String,
    pub descriptor: String,
    pub attributes: Vec<Attribute>,
}

/// A parsed class, as the interpreter reads it.
#[derive(Debug)]
pub struct ClassFile {
    pub name: String,
    pub constant_pool: Vec<ConstantPoolItem>,
    pub fields: Vec<Field>,
    pub methods: Vec<Rc<Method>>,
}

/// A resolved field or method reference.
#[derive(Debug)]
pub struct MemberInfo {
    pub class_name: String,
    pub name: String,
    pub descriptor: String,
}

impl ConstantPoolItem {
    pub open spec fn friendly_name(self) -> &'static str {
        match self {
            ConstantPoolItem::Utf8 { .. } => "Utf8",
            ConstantPoolItem::Integer { .. } => "Integer",
            ConstantPoolItem::Long { .. } => "Long",
            ConstantPoolItem::Class { .. } => "Class",
            ConstantPoolItem::String { .. } => "String",
            ConstantPoolItem::Fieldref { .. } => "Fieldref",
            ConstantPoolItem::Methodref { .. } => "Methodref",
            ConstantPoolItem::InterfaceMethodref { .. } => "InterfaceMethodref",
            ConstantPoolItem::NameAndType { .. } => "NameAndType",
            ConstantPoolItem::Other { .. } => "Other",
        }
    }

    /// The name of the item kind, for diagnostics.
    pub fn to_friendly_name(&self) -> (r: &'static str)
        ensures
            r == self.friendly_name(),
    {
        match self {
            ConstantPoolItem::Utf8 { .. } => "Utf8",
            ConstantPoolItem::Integer { .. } => "Integer",
            ConstantPoolItem::Long { .. } => "Long",
            ConstantPoolItem::Class { .. } => "Class",
            ConstantPoolItem::String { .. } => "String",
            ConstantPoolItem::Fieldref { .. } => "Fieldref",
            ConstantPoolItem::Methodref { .. } => "Methodref",
            ConstantPoolItem::InterfaceMethodref { .. } => "InterfaceMethodref",
            ConstantPoolItem::NameAndType { .. } => "NameAndType",
            ConstantPoolItem::Other { .. } => "Other",
        }
    }
}

/// Item `index` of a constant pool; indices start at 1.
pub open spec fn pool_item(pool: Seq<ConstantPoolItem>, index: int) -> Result<ConstantPoolItem, ParserError> {
    if 1 <= index <= pool.len() {
        Ok(pool[index - 1])
    } else {
        Err(ParserError::InvalidConstantPoolIndex(index as usize))
    }
}

pub open spec fn utf8_at(pool: Seq<ConstantPoolItem>, index: int) -> Result<Seq<char>, ParserError> {
    match pool_item(pool, index) {
        Ok(ConstantPoolItem::Utf8 { value }) => Ok(value@),
        Ok(other) => Err(ParserError::UnexpectedConstantPoolItem(other.friendly_name())),
        Err(e) => Err(e),
    }
}

/// The class name that a `Class` item at `index` names.
pub open spec fn class_name_at(pool: Seq<ConstantPoolItem>, index: int) -> Result<Seq<char>, ParserError> {
    match pool_item(pool, index) {
        Ok(ConstantPoolItem::Class { name_index }) => utf8_at(pool, name_index as int),
        Ok(other) => Err(ParserError::UnexpectedConstantPoolItem(other.friendly_name())),
        Err(e) => Err(e),
    }
}

/// The text of a `String` item at `index`.
pub open spec fn string_constant_at(pool: Seq<ConstantPoolItem>, index: int) -> Result<Seq<char>, ParserError> {
    match pool_item(pool, index) {
        Ok(ConstantPoolItem::String { string_index }) => utf8_at(pool, string_index as int),
        Ok(other) => Err(ParserError::UnexpectedConstantPoolItem(other.friendly_name())),
        Err(e) => Err(e),
    }
}

/// The resolved (class name, name, descriptor) of a member reference at `index`:
/// a `Fieldref` when `field` holds, else a `Methodref`.
pub open spec fn member_at(pool: Seq<ConstantPoolItem>, index: int, field: bool) -> Result<
    (Seq<char>, Seq<char>, Seq<char>),
    ParserError,
> {
    match pool_item(pool, index) {
        Ok(item) => {
            let refs = match item {
                ConstantPoolItem::Fieldref { class_index, name_and_type_index } if field => Some(
                    (class_index, name_and_type_index),
                ),
                ConstantPoolItem::Methodref { class_index, name_and_type_index } if !field => Some(
                    (class_index, name_and_type_index),
                ),
                _ => None,
            };
            match refs {
                None => Err(ParserError::UnexpectedConstantPoolItem(item.friendly_name())),
                Some((class_index, nat_index)) => match class_name_at(pool, class_index as int) {
                    Err(e) => Err(e),
                    Ok(class_name) => match pool_item(pool, nat_index as int) {
                        Err(e) => Err(e),
                        Ok(ConstantPoolItem::NameAndType { name_index, descriptor_index }) => {
                            match utf8_at(pool, name_index as int) {
                                Err(e) => Err(e),
                                Ok(name) => match utf8_at(pool, descriptor_index as int) {
                                    Err(e) => Err(e),
                                    Ok(descriptor) => Ok((class_name, name, descriptor)),
                                },
                            }
                        },
                        Ok(other) => Err(ParserError::UnexpectedConstantPoolItem(other.friendly_name())),
                    },
                },
            }
        },
        Err(e) => Err(e),
    }
}

/// Looks up item `index` of a constant pool; indices start at 1.
pub fn retrieve_item(index: usize, pool: &Vec<ConstantPoolItem>) -> (r: Result<&ConstantPoolItem, ParserError>)
    ensures
        match r {
            Ok(item) => pool_item(pool@, index as int) == Ok::<ConstantPoolItem, ParserError>(*item),
            Err(e) => pool_item(pool@, index as int) == Err::<ConstantPoolItem, ParserError>(e),
        },
{
    if index >= 1 && index <= pool.len() {
        Ok(&pool[index - 1])
    } else {
        Err(ParserError::InvalidConstantPoolIndex(index))
    }
}

/// The text of the `Utf8` item at `index`.
pub fn retrieve_utf8_info(index: u16, pool: &Vec<ConstantPoolItem>) -> (r: Result<String, ParserError>)
    ensures
        match r {
            Ok(s) => utf8_at(pool@, index as int) == Ok::<Seq<char>, ParserError>(s@),
            Err(e) => utf8_at(pool@, index as int) == Err::<Seq<char>, ParserError>(e),
        },
{
    match retrieve_item(index as usize, pool)? {
        ConstantPoolItem::Utf8 { value } => Ok(value.clone()),
        other => Err(ParserError::UnexpectedConstantPoolItem(other.to_friendly_name())),
    }
}

/// The class name that the `Class` item at `index` names.
pub fn resolve_class_name(index: u16, pool: &Vec<ConstantPoolItem>) -> (r: Result<String, ParserError>)
    ensures
        match r {
            Ok(s) => class_name_at(pool@, index as int) == Ok::<Seq<char>, ParserError>(s@),
            Err(e) => class_name_at(pool@, index as int) == Err::<Seq<char>, ParserError>(e),
        },
{
    match retrieve_item(index as usize, pool)? {
        ConstantPoolItem::Class { name_index } => retrieve_utf8_info(*name_index, pool),
        other => Err(ParserError::UnexpectedConstantPoolItem(other.to_friendly_name())),
    }
}

/// The text of the `String` item at `index`.
pub fn resolve_string_constant(index: u16, pool: &Vec<ConstantPoolItem>) -> (r: Result<String, ParserError>)
    ensures
        match r {
            Ok(s) => string_constant_at(pool@, index as int) == Ok::<Seq<char>, ParserError>(s@),
            Err(e) => string_constant_at(pool@, index as int) == Err::<Seq<char>, ParserError>(e),
        },
{
    match retrieve_item(index as usize, pool)? {
        ConstantPoolItem::String { string_index } => retrieve_utf8_info(*string_index, pool),
        other => Err(ParserError::UnexpectedConstantPoolItem(other.to_friendly_name())),
    }
}

/// Resolves the `Fieldref` (when `field` holds) or `Methodref` item at `index`
/// into class name, member name and descriptor.
pub fn resolve_member_info(index: u16, pool: &Vec<ConstantPoolItem>, field: bool) -> (r: Result<MemberInfo, ParserError>)
    ensures
        match r {
            Ok(m) => member_at(pool@, index as int, field) == Ok::<(Seq<char>, Seq<char>, Seq<char>), ParserError>(
                (m.class_name@, m.name@, m.descriptor@),
            ),
            Err(e) => member_at(pool@, index as int, field) == Err::<(Seq<char>, Seq<char>, Seq<char>), ParserError>(e),
        },
{
    let item = retrieve_item(index as usize, pool)?;
    let (class_index, nat_index) = match item {
        ConstantPoolItem::Fieldref { class_index, name_and_type_index } if field => (*class_index, *name_and_type_index),
        ConstantPoolItem::Methodref { class_index, name_and_type_index } if !field => (*class_index, *name_and_type_index),
        other => {
            return Err(ParserError::UnexpectedConstantPoolItem(other.to_friendly_name()));
        },
    };
    let class_name = resolve_class_name(class_index, pool)?;
    let (name_index, descriptor_index) = match retrieve_item(nat_index as usize, pool)? {
        ConstantPoolItem::NameAndType { name_index, descriptor_index } => (*name_index, *descriptor_index),
        other => {
            return Err(ParserError::UnexpectedConstantPoolItem(other.to_friendly_name()));
        },
    };
    let name = retrieve_utf8_info(name_index, pool)?;
    let descriptor = retrieve_utf8_info(descriptor_index, pool)?;
    Ok(MemberInfo { class_name, name, descriptor })
}

/// The first `Code` attribute among `attributes`.
pub open spec fn first_code(attributes: Seq<Attribute>) -> Option<Rc<CodeAttribute>>
    decreases attributes.len(),
{
    if attributes.len() == 0 {
        None
    } else {
        match attributes[0] {
            Attribute::Code(c) => Some(c),
            Attribute::Other => first_code(attributes.drop_first()),
        }
    }
}

/// Index of the first method named `name`, if any.
pub open spec fn method_index(methods: Seq<Rc<Method>>, name: Seq<char>) -> Option<int> {
    if exists|i: int| 0 <= i < methods.len() && methods[i].name@ == name {
        Some(choose|i: int| 0 <= i < methods.len() && methods[i].name@ == name
            && forall|j: int| 0 <= j < i ==> methods[j].name@ != name)
    } else {
        None
    }
}

pub open spec fn is_native(access_flags: u16) -> bool {
    access_flags & ACC_NATIVE != 0
}

pub open spec fn is_static(access_flags: u16) -> bool {
    access_flags & ACC_STATIC != 0
}

impl Method {
    pub fn is_native(&self) -> (r: bool)
        ensures
            r == is_native(self.access_flags),
    {
        self.access_flags & ACC_NATIVE != 0
    }

    /// The method's first `Code` attribute.
    pub fn resolve_code_attribute(&self) -> (r: Option<Rc<CodeAttribute>>)
        ensures
            r == first_code(self.attributes@),
    {
        let mut i: usize = 0;
        assert(self.attributes@.subrange(0, self.attributes@.len() as int) =~= self.attributes@);
        while i < self.attributes.len()
            invariant
                i <= self.attributes@.len(),
                first_code(self.attributes@) == first_code(self.attributes@.subrange(i as int, self.attributes@.len() as int)),
            decreases self.attributes@.len() - i,
        {
            let ghost rest = self.attributes@.subrange(i as int, self.attributes@.len() as int);
            assert(rest.drop_first() =~= self.attributes@.subrange(i + 1, self.attributes@.len() as int));
            match &self.attributes[i] {
                Attribute::Code(c) => {
                    return Some(c.clone());
                },
                Attribute::Other => {},
            }
            i = i + 1;
        }
        assert(self.attributes@.subrange(i as int, self.attributes@.len() as int).len() == 0);
        None
    }
}

impl Field {
    pub fn is_static(&self) -> (r: bool)
        ensures
            r == is_static(self.access_flags),
    {
        self.access_flags & ACC_STATIC != 0
    }
}

impl ClassFile {
    /// The class's first method named `name`.
    pub fn maybe_resolve_method(&self, name: &String) -> (r: Option<Rc<Method>>)
        ensures
            match method_index(self.methods@, name@) {
                Some(i) => r == Some(self.methods@[i]),
                None => r is None,
            },
    {
        let mut i: usize = 0;
        while i < self.methods.len()
            invariant
                i <= self.methods@.len(),
                forall|j: int| 0 <= j < i ==> self.methods@[j].name@ != name@,
            decreases self.methods@.len() - i,
        {
            if self.methods[i].name == *name {
                let ghost k = choose|k: int| 0 <= k < self.methods@.len() && self.methods@[k].name@ == name@
                    && forall|j: int| 0 <= j < k ==> self.methods@[j].name@ != name@;
                assert(k == i) by {
                    if k < i {
                    } else if k > i {
                        assert(self.methods@[i as int].name@ == name@);
                    }
                }
                return Some(self.methods[i].clone());
            }
            i = i + 1;
        }
        None
    }
}

} // verus!
