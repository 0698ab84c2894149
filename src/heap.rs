use vstd::prelude::*;

use crate::classfile::{is_static, ClassFile, Field};
use crate::table::NameTable;
use crate::value::JavaType;

verus! {

pub type DataStoreResult<T> = Result<T, DataStoreError>;

/// Why a heap or class-static access failed.
#[derive(Debug)]
pub enum DataStoreError {
    InvalidPointer(u64),
    UnexpectedHeapType,
    UninitializedClass(String),
    StaticFieldNotFound(String),
    FieldNotFound(String),
}

/// The static fields of one initialized class.
pub struct ClassStaticInfo {
    pub static_fields: NameTable<JavaType>,
}

impl ClassStaticInfo {
    pub fn new() -> (r: ClassStaticInfo)
        ensures
            r.static_fields@ == Map::<Seq<char>, JavaType>::empty(),
    {
        ClassStaticInfo { static_fields: NameTable::new() }
    }
}

/// An instance of a class: its class name and its instance fields.
pub struct AllocatedObject {
    pub class_name: String,
    pub instance_variables: NameTable<JavaType>,
}

impl AllocatedObject {
    pub fn new(class_name: String) -> (r: AllocatedObject)
        ensures
            r.class_name@ == class_name@,
            r.instance_variables@ == Map::<Seq<char>, JavaType>::empty(),
    {
        AllocatedObject { class_name, instance_variables: NameTable::new() }
    }
}

/// An array: the element count it was made with, and its elements.
pub struct AllocatedArray {
    pub count: i32,
    pub store: Vec<JavaType>,
}

/// `n` copies of `Null`, none when `n` is negative.
pub open spec fn null_elements(n: i32) -> Seq<JavaType> {
    Seq::new(element_count(n), |i: int| JavaType::Null)
}

impl AllocatedArray {
    /// An array of `count` elements, each `Null`.
    pub fn new(count: i32) -> (r: AllocatedArray)
        ensures
            r.count == count,
            r.store@ == null_elements(count),
    {
        let mut store: Vec<JavaType> = Vec::new();
        let mut i: i32 = 0;
        while i < count
            invariant
                0 <= i,
                count >= 0 ==> i <= count,
                count < 0 ==> i == 0,
                store@ == Seq::new(i as nat, |k: int| JavaType::Null),
            decreases count - i,
        {
            store.push(JavaType::Null);
            i = i + 1;
            assert(store@ =~= Seq::new(i as nat, |k: int| JavaType::Null));
        }
        assert(store@ =~= null_elements(count));
        AllocatedArray { count, store }
    }
}

pub enum HeapAllocation {
    Object(AllocatedObject),
    Array(AllocatedArray),
}

/// The value a new instance field of type `descriptor` starts with.
pub open spec fn default_value(descriptor: Seq<char>) -> JavaType {
    if descriptor.len() == 0 {
        JavaType::Int { value: 0 }
    } else if descriptor[0] == 'L' || descriptor[0] == '[' {
        JavaType::Null
    } else if descriptor[0] == 'J' {
        JavaType::Long { value: 0 }
    } else if descriptor[0] == 'B' {
        JavaType::Byte { value: 0 }
    } else if descriptor[0] == 'C' {
        JavaType::Char { value: 0 }
    } else {
        JavaType::Int { value: 0 }
    }
}

/// The instance fields of a new object of a class with `fields`: each
/// non-static field, bound to its default value.
pub open spec fn default_fields(fields: Seq<Field>) -> Map<Seq<char>, JavaType>
    decreases fields.len(),
{
    if fields.len() == 0 {
        Map::empty()
    } else {
        let rest = default_fields(fields.drop_last());
        let f = fields.last();
        if is_static(f.access_flags) {
            rest
        } else {
            rest.insert(f.name@, default_value(f.descriptor@))
        }
    }
}

/// The number of elements an array made with `count` holds.
pub open spec fn element_count(count: i32) -> nat {
    if count < 0 {
        0
    } else {
        count as nat
    }
}

/// An array's store holds as many elements as its count says.
pub open spec fn entry_wf(a: HeapAllocation) -> bool {
    match a {
        HeapAllocation::Array(arr) => arr.store@.len() == element_count(arr.count),
        HeapAllocation::Object(_) => true,
    }
}

/// What a new object of `class` holds.
pub open spec fn is_new_object(a: HeapAllocation, class: ClassFile) -> bool {
    match a {
        HeapAllocation::Object(o) => o.class_name@ == class.name@ && o.instance_variables@ == default_fields(
            class.fields@,
        ),
        HeapAllocation::Array(_) => false,
    }
}

/// What a new array of `count` elements holds.
pub open spec fn is_new_array(a: HeapAllocation, count: i32) -> bool {
    match a {
        HeapAllocation::Array(arr) => arr.count == count && arr.store@ == null_elements(count),
        HeapAllocation::Object(_) => false,
    }
}

/// The initial value of a new instance field of type `descriptor`.
pub fn field_default_value(descriptor: &String) -> (r: JavaType)
    ensures
        r == default_value(descriptor@),
{
    let d = descriptor.as_str();
    if d.unicode_len() == 0 {
        return JavaType::Int { value: 0 };
    }
    let c = d.get_char(0);
    if c == 'L' || c == '[' {
        JavaType::Null
    } else if c == 'J' {
        JavaType::Long { value: 0 }
    } else if c == 'B' {
        JavaType::Byte { value: 0 }
    } else if c == 'C' {
        JavaType::Char { value: 0 }
    } else {
        JavaType::Int { value: 0 }
    }
}

/// Objects and arrays, addressed by handles handed out in increasing order from 0.
///
/// Handle `h` names `objects[h]`.
pub struct ObjectHeap {
    pub current_pointer: u64,
    pub objects: Vec<HeapAllocation>,
}

impl ObjectHeap {
    /// Handles are handed out in order, and every array holds as many elements
    /// as its count says.
    pub open spec fn wf(&self) -> bool {
        &&& self.current_pointer as int == self.objects@.len()
        &&& forall|h: int| 0 <= h < self.objects@.len() ==> #[trigger] entry_wf(self.objects@[h])
    }

    /// Room for `n` more allocations.
    pub open spec fn has_room(&self, n: int) -> bool {
        self.objects@.len() + n <= usize::MAX && self.current_pointer + n <= u64::MAX
    }

    /// `self` gained one entity at its end, named by `handle`.
    pub open spec fn allocated_from(&self, old_heap: ObjectHeap, handle: u64) -> bool {
        &&& old_heap.wf()
        &&& self.wf()
        &&& handle == old_heap.current_pointer
        &&& self.objects@.len() == old_heap.objects@.len() + 1
        &&& self.objects@.drop_last() == old_heap.objects@
    }

    /// The entity that handle `h` names, if any.
    pub open spec fn entity(&self, h: u64) -> Option<HeapAllocation> {
        if h < self.objects@.len() {
            Some(self.objects@[h as int])
        } else {
            None
        }
    }

    pub fn new() -> (r: ObjectHeap)
        ensures
            r.wf(),
            r.objects@.len() == 0,
    {
        ObjectHeap { current_pointer: 0, objects: Vec::new() }
    }

    pub fn can_allocate(&self, n: u64) -> (r: bool)
        requires
            self.wf(),
        ensures
            r == self.has_room(n as int),
    {
        let len = self.objects.len();
        n <= u64::MAX - self.current_pointer && (n as u128) <= (usize::MAX - len) as u128
    }

    /// Allocates an object of `class` with its instance fields at their defaults.
    pub fn allocate_object(&mut self, class: &ClassFile) -> (r: u64)
        requires
            old(self).wf(),
            old(self).has_room(1),
        ensures
            final(self).allocated_from(*old(self), r),
            is_new_object(final(self).objects@.last(), *class),
    {
        let pointer = self.current_pointer;
        let mut object = AllocatedObject::new(class.name.clone());
        let mut i: usize = 0;
        while i < class.fields.len()
            invariant
                i <= class.fields@.len(),
                object.class_name@ == class.name@,
                object.instance_variables@ == default_fields(class.fields@.subrange(0, i as int)),
            decreases class.fields@.len() - i,
        {
            let field = &class.fields[i];
            assert(class.fields@.subrange(0, i + 1).drop_last() =~= class.fields@.subrange(0, i as int));
            if !field.is_static() {
                let value = field_default_value(&field.descriptor);
                object.instance_variables.insert(field.name.clone(), value);
            }
            i = i + 1;
        }
        assert(class.fields@.subrange(0, i as int) =~= class.fields@);
        let ghost old_objects = self.objects@;
        self.objects.push(HeapAllocation::Object(object));
        assert(self.objects@.drop_last() =~= old_objects);
        self.current_pointer = self.current_pointer + 1;
        pointer
    }

    /// Allocates an array of `count` elements, each `Null`.
    pub fn allocate_array(&mut self, count: i32) -> (r: u64)
        requires
            old(self).wf(),
            old(self).has_room(1),
        ensures
            final(self).allocated_from(*old(self), r),
            is_new_array(final(self).objects@.last(), count),
    {
        let pointer = self.current_pointer;
        let ghost old_objects = self.objects@;
        self.objects.push(HeapAllocation::Array(AllocatedArray::new(count)));
        assert(self.objects@.drop_last() =~= old_objects);
        self.current_pointer = self.current_pointer + 1;
        pointer
    }

    /// The handle that a `Reference` holds.
    pub fn resolve_pointer(pointer: &JavaType) -> (r: u64)
        requires
            pointer is Reference,
        ensures
            r == pointer->Reference_value,
    {
        match pointer {
            JavaType::Reference { value } => *value,
            _ => 0,
        }
    }

    pub fn get(&self, pointer: &JavaType) -> (r: DataStoreResult<&HeapAllocation>)
        requires
            self.wf(),
            pointer is Reference,
        ensures
            match r {
                Ok(a) => self.entity(pointer->Reference_value) == Some(*a),
                Err(e) => self.entity(pointer->Reference_value) is None && e == DataStoreError::InvalidPointer(
                    pointer->Reference_value,
                ),
            },
    {
        let h = Self::resolve_pointer(pointer);
        let len = self.objects.len();
        if (h as u128) < (len as u128) {
            let i = h as usize;
            assert(i as int == h as int);
            Ok(&self.objects[i])
        } else {
            Err(DataStoreError::InvalidPointer(h))
        }
    }

    pub fn get_object(&self, pointer: &JavaType) -> (r: DataStoreResult<&AllocatedObject>)
        requires
            self.wf(),
            pointer is Reference,
        ensures
            match r {
                Ok(o) => self.entity(pointer->Reference_value) == Some(HeapAllocation::Object(*o)),
                Err(e) => match self.entity(pointer->Reference_value) {
                    None => e == DataStoreError::InvalidPointer(pointer->Reference_value),
                    Some(a) => a is Array && e == DataStoreError::UnexpectedHeapType,
                },
            },
    {
        match self.get(pointer)? {
            HeapAllocation::Object(o) => Ok(o),
            HeapAllocation::Array(_) => Err(DataStoreError::UnexpectedHeapType),
        }
    }

    pub fn get_array(&self, pointer: &JavaType) -> (r: DataStoreResult<&AllocatedArray>)
        requires
            self.wf(),
            pointer is Reference,
        ensures
            match r {
                Ok(a) => self.entity(pointer->Reference_value) == Some(HeapAllocation::Array(*a)),
                Err(e) => match self.entity(pointer->Reference_value) {
                    None => e == DataStoreError::InvalidPointer(pointer->Reference_value),
                    Some(a) => a is Object && e == DataStoreError::UnexpectedHeapType,
                },
            },
    {
        match self.get(pointer)? {
            HeapAllocation::Array(a) => Ok(a),
            HeapAllocation::Object(_) => Err(DataStoreError::UnexpectedHeapType),
        }
    }

    pub fn get_mut(&mut self, pointer: &JavaType) -> (r: DataStoreResult<&mut HeapAllocation>)
        requires
            old(self).wf(),
            pointer is Reference,
        ensures
            final(self).current_pointer == old(self).current_pointer,
            match r {
                Ok(a) => {
                    &&& old(self).entity(pointer->Reference_value) == Some(*a)
                    &&& final(self).objects@ == old(self).objects@.update(pointer->Reference_value as int, *final(a))
                },
                Err(e) => {
                    &&& old(self).entity(pointer->Reference_value) is None
                    &&& e == DataStoreError::InvalidPointer(pointer->Reference_value)
                    &&& final(self).objects@ == old(self).objects@
                },
            },
    {
        let h = Self::resolve_pointer(pointer);
        let len = self.objects.len();
        if (h as u128) < (len as u128) {
            let i = h as usize;
            assert(i as int == h as int);
            Ok(&mut self.objects[i])
        } else {
            Err(DataStoreError::InvalidPointer(h))
        }
    }

    pub fn get_object_mut(&mut self, pointer: &JavaType) -> (r: DataStoreResult<&mut AllocatedObject>)
        requires
            old(self).wf(),
            pointer is Reference,
        ensures
            final(self).current_pointer == old(self).current_pointer,
            match r {
                Ok(o) => {
                    &&& old(self).entity(pointer->Reference_value) == Some(HeapAllocation::Object(*o))
                    &&& final(self).objects@ == old(self).objects@.update(
                        pointer->Reference_value as int,
                        HeapAllocation::Object(*final(o)),
                    )
                },
                Err(e) => {
                    &&& final(self).objects@ == old(self).objects@
                    &&& match old(self).entity(pointer->Reference_value) {
                        None => e == DataStoreError::InvalidPointer(pointer->Reference_value),
                        Some(a) => a is Array && e == DataStoreError::UnexpectedHeapType,
                    }
                },
            },
    {
        match self.get_mut(pointer)? {
            HeapAllocation::Object(o) => Ok(o),
            HeapAllocation::Array(_) => Err(DataStoreError::UnexpectedHeapType),
        }
    }

    pub fn get_array_mut(&mut self, pointer: &JavaType) -> (r: DataStoreResult<&mut AllocatedArray>)
        requires
            old(self).wf(),
            pointer is Reference,
        ensures
            final(self).current_pointer == old(self).current_pointer,
            match r {
                Ok(a) => {
                    &&& old(self).entity(pointer->Reference_value) == Some(HeapAllocation::Array(*a))
                    &&& final(self).objects@ == old(self).objects@.update(
                        pointer->Reference_value as int,
                        HeapAllocation::Array(*final(a)),
                    )
                },
                Err(e) => {
                    &&& final(self).objects@ == old(self).objects@
                    &&& match old(self).entity(pointer->Reference_value) {
                        None => e == DataStoreError::InvalidPointer(pointer->Reference_value),
                        Some(a) => a is Object && e == DataStoreError::UnexpectedHeapType,
                    }
                },
            },
    {
        match self.get_mut(pointer)? {
            HeapAllocation::Array(a) => Ok(a),
            HeapAllocation::Object(_) => Err(DataStoreError::UnexpectedHeapType),
        }
    }

    /// Instance field `field_name` of the object that `pointer` refers to.
    pub fn get_field(&self, pointer: &JavaType, field_name: &String) -> (r: DataStoreResult<&JavaType>)
        requires
            self.wf(),
            pointer is Reference,
        ensures
            match r {
                Ok(v) => self.entity(pointer->Reference_value) matches Some(HeapAllocation::Object(o))
                    && o.instance_variables@.contains_key(field_name@) && *v == o.instance_variables@[field_name@],
                Err(e) => match self.entity(pointer->Reference_value) {
                    None => e == DataStoreError::InvalidPointer(pointer->Reference_value),
                    Some(HeapAllocation::Array(_)) => e == DataStoreError::UnexpectedHeapType,
                    Some(HeapAllocation::Object(o)) => !o.instance_variables@.contains_key(field_name@)
                        && (e matches DataStoreError::FieldNotFound(n) && n@ == field_name@),
                },
            },
    {
        let object = self.get_object(pointer)?;
        match object.instance_variables.get(field_name) {
            Some(v) => Ok(v),
            None => Err(DataStoreError::FieldNotFound(field_name.clone())),
        }
    }

    /// Binds instance field `field_name` of the object that `pointer` refers to.
    pub fn set_field(&mut self, pointer: &JavaType, field_name: String, value: JavaType) -> (r: DataStoreResult<()>)
        requires
            old(self).wf(),
            pointer is Reference,
        ensures
            final(self).wf(),
            final(self).current_pointer == old(self).current_pointer,
            match old(self).entity(pointer->Reference_value) {
                Some(HeapAllocation::Object(_)) => r is Ok && field_set(
                    old(self).objects@,
                    final(self).objects@,
                    pointer->Reference_value as int,
                    field_name@,
                    value,
                ),
                Some(HeapAllocation::Array(_)) => r == Err::<(), DataStoreError>(DataStoreError::UnexpectedHeapType)
                    && final(self).objects@ == old(self).objects@,
                None => r == Err::<(), DataStoreError>(DataStoreError::InvalidPointer(pointer->Reference_value))
                    && final(self).objects@ == old(self).objects@,
            },
    {
        let object = self.get_object_mut(pointer)?;
        object.instance_variables.insert(field_name, value);
        Ok(())
    }
}

/// `new` is `old` but at handle `h`.
pub open spec fn same_except(old: Seq<HeapAllocation>, new: Seq<HeapAllocation>, h: int) -> bool {
    &&& new.len() == old.len()
    &&& forall|j: int| 0 <= j < old.len() && j != h ==> new[j] == old[j]
}

/// `new` is `old` with field `name` of the object at `h` bound to `value`.
pub open spec fn field_set(old: Seq<HeapAllocation>, new: Seq<HeapAllocation>, h: int, name: Seq<char>, value: JavaType) -> bool {
    &&& 0 <= h < old.len()
    &&& same_except(old, new, h)
    &&& match (old[h], new[h]) {
        (HeapAllocation::Object(o1), HeapAllocation::Object(o2)) => o2.class_name == o1.class_name
            && o2.instance_variables@ == o1.instance_variables@.insert(name, value),
        _ => false,
    }
}

/// `new` is `old` with element `i` of the array at `h` set to `value`.
pub open spec fn element_set(old: Seq<HeapAllocation>, new: Seq<HeapAllocation>, h: int, i: int, value: JavaType) -> bool {
    &&& 0 <= h < old.len()
    &&& same_except(old, new, h)
    &&& match (old[h], new[h]) {
        (HeapAllocation::Array(a1), HeapAllocation::Array(a2)) => a2.count == a1.count && 0 <= i < a1.store@.len()
            && a2.store@ == a1.store@.update(i, value),
        _ => false,
    }
}

/// Class statics and the object heap.
///
/// A class is initialized exactly when its name has an entry in `class_statics`.
pub struct CommonDataStore {
    pub class_statics: NameTable<ClassStaticInfo>,
    pub object_heap: ObjectHeap,
}

impl CommonDataStore {
    pub open spec fn wf(&self) -> bool {
        self.object_heap.wf()
    }

    /// Each initialized class, with its static fields.
    pub open spec fn statics(&self) -> Map<Seq<char>, Map<Seq<char>, JavaType>> {
        self.class_statics@.map_values(|c: ClassStaticInfo| c.static_fields@)
    }

    pub fn new() -> (r: CommonDataStore)
        ensures
            r.wf(),
            r.statics() == Map::<Seq<char>, Map<Seq<char>, JavaType>>::empty(),
            r.object_heap.objects@.len() == 0,
    {
        let r = CommonDataStore { class_statics: NameTable::new(), object_heap: ObjectHeap::new() };
        assert(r.statics() =~= Map::<Seq<char>, Map<Seq<char>, JavaType>>::empty());
        r
    }

    pub fn heap(&mut self) -> (r: &mut ObjectHeap)
        ensures
            *r == old(self).object_heap,
            final(self).object_heap == *final(r),
            final(self).class_statics == old(self).class_statics,
    {
        &mut self.object_heap
    }

    pub fn has_class_statics(&self, class_name: &String) -> (r: bool)
        ensures
            r == self.statics().contains_key(class_name@),
    {
        self.class_statics.contains_key(class_name)
    }

    /// Marks `class_name` initialized, with no static fields yet; a class that
    /// already is keeps its fields.
    pub fn register_class(&mut self, class_name: String)
        ensures
            final(self).object_heap == old(self).object_heap,
            final(self).statics() == if old(self).statics().contains_key(class_name@) {
                old(self).statics()
            } else {
                old(self).statics().insert(class_name@, Map::empty())
            },
    {
        if !self.class_statics.contains_key(&class_name) {
            let ghost k = class_name@;
            self.class_statics.insert(class_name, ClassStaticInfo::new());
            assert(self.statics() =~= old(self).statics().insert(k, Map::empty()));
        }
    }

    /// Binds static field `field_name` of the initialized class `class_name`.
    pub fn set_class_static(&mut self, class_name: &String, field_name: String, value: JavaType)
        requires
            old(self).statics().contains_key(class_name@),
        ensures
            final(self).object_heap == old(self).object_heap,
            final(self).statics() == old(self).statics().insert(
                class_name@,
                old(self).statics()[class_name@].insert(field_name@, value),
            ),
    {
        let ghost f = field_name@;
        match self.class_statics.get_mut(class_name) {
            Some(info) => {
                info.static_fields.insert(field_name, value);
            },
            None => {},
        }
        assert(self.statics() =~= old(self).statics().insert(
            class_name@,
            old(self).statics()[class_name@].insert(f, value),
        ));
    }

    /// Static field `field_name` of class `class_name`.
    pub fn get_class_static(&self, class_name: &String, field_name: &String) -> (r: DataStoreResult<&JavaType>)
        ensures
            match r {
                Ok(v) => self.statics().contains_key(class_name@) && self.statics()[class_name@].contains_key(
                    field_name@,
                ) && *v == self.statics()[class_name@][field_name@],
                Err(e) => if !self.statics().contains_key(class_name@) {
                    e matches DataStoreError::UninitializedClass(n) && n@ == class_name@
                } else {
                    !self.statics()[class_name@].contains_key(field_name@) && (
                    e matches DataStoreError::StaticFieldNotFound(n) && n@ == field_name@)
                },
            },
    {
        let static_class = match self.class_statics.get(class_name) {
            Some(val) => val,
            None => {
                return Err(DataStoreError::UninitializedClass(class_name.clone()));
            },
        };
        match static_class.static_fields.get(field_name) {
            Some(val) => Ok(val),
            None => Err(DataStoreError::StaticFieldNotFound(field_name.clone())),
        }
    }
}

/// A handle handed out by an allocation names an entity from then on, and a
/// later allocation hands out a greater handle.
pub proof fn lemma_allocation_handles(h0: ObjectHeap, h1: ObjectHeap, h2: ObjectHeap, first: u64, second: u64)
    requires
        h1.allocated_from(h0, first),
        h2.allocated_from(h1, second),
    ensures
        h1.entity(first) is Some,
        h2.entity(first) is Some,
        h2.entity(second) is Some,
        h2.entity(first) == h1.entity(first),
        first < second,
{
    assert(h2.objects@[first as int] == h2.objects@.drop_last()[first as int]);
}

} // verus!
