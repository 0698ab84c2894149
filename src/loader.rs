use vstd::prelude::*;

use std::rc::Rc;

use crate::classfile::ClassFile;
use crate::table::NameTable;
use crate::text::push_char;
use crate::vm::VirtualMachineError;

verus! {

/// The classes known by internal name, and the classpath entries they come from.
///
/// Reading and parsing classfiles happens outside the library; the loader keeps
/// what was parsed and answers lookups by name.
pub struct BaseClassLoader {
    pub loaded_classes: NameTable<Rc<ClassFile>>,
    pub classfile_paths: Vec<String>,
    pub classfile_directories: Vec<String>,
}

impl BaseClassLoader {
    /// The loaded classes by internal name.
    pub open spec fn classes(&self) -> Map<Seq<char>, Rc<ClassFile>> {
        self.loaded_classes@
    }

    /// Each loaded class is kept under its own name.
    pub open spec fn names_match(&self) -> bool {
        forall|k: Seq<char>| #[trigger] self.classes().contains_key(k) ==> self.classes()[k].name@ == k
    }

    pub fn new() -> (r: BaseClassLoader)
        ensures
            r.names_match(),
            r.classes() == Map::<Seq<char>, Rc<ClassFile>>::empty(),
            r.classfile_paths@.len() == 0,
            r.classfile_directories@.len() == 0,
    {
        BaseClassLoader { loaded_classes: NameTable::new(), classfile_paths: Vec::new(), classfile_directories: Vec::new() }
    }

    /// Records a classpath entry: a single classfile when `is_file` holds, else a
    /// directory root.
    pub fn add_classfile_path(&mut self, path: String, is_file: bool)
        ensures
            final(self).classes() == old(self).classes(),
            is_file ==> final(self).classfile_paths@ == old(self).classfile_paths@.push(path)
                && final(self).classfile_directories@ == old(self).classfile_directories@,
            !is_file ==> final(self).classfile_directories@ == old(self).classfile_directories@.push(path)
                && final(self).classfile_paths@ == old(self).classfile_paths@,
    {
        if is_file {
            self.classfile_paths.push(path);
        } else {
            self.classfile_directories.push(path);
        }
    }

    /// Adds a parsed class under its own name; a class of that name that is
    /// already loaded stays. Returns whether `class` was added.
    pub fn add_class(&mut self, class: ClassFile) -> (r: bool)
        ensures
            r == !old(self).classes().contains_key(class.name@),
            old(self).names_match() ==> final(self).names_match(),
            final(self).classfile_paths == old(self).classfile_paths,
            final(self).classfile_directories == old(self).classfile_directories,
            final(self).classes() == if r {
                old(self).classes().insert(class.name@, Rc::new(class))
            } else {
                old(self).classes()
            },
    {
        if self.loaded_classes.contains_key(&class.name) {
            return false;
        }
        let name = class.name.clone();
        self.loaded_classes.insert(name, Rc::new(class));
        true
    }

    /// The loaded class named `name`.
    pub fn resolve_class(&self, name: &String) -> (r: Result<Rc<ClassFile>, VirtualMachineError>)
        ensures
            match r {
                Ok(c) => self.classes().contains_key(name@) && c == self.classes()[name@],
                Err(e) => !self.classes().contains_key(name@) && (e matches VirtualMachineError::ClassNotFound(n)
                    && n@ == name@),
            },
    {
        match self.loaded_classes.get(name) {
            Some(c) => Ok(c.clone()),
            None => Err(VirtualMachineError::ClassNotFound(name.clone())),
        }
    }
}

/// The segments joined with `/` between them.
pub open spec fn join_segments(segments: Seq<Seq<char>>) -> Seq<char>
    decreases segments.len(),
{
    if segments.len() <= 1 {
        if segments.len() == 1 {
            segments[0]
        } else {
            Seq::empty()
        }
    } else {
        join_segments(segments.drop_last()) + seq!['/'] + segments.last()
    }
}

/// The `/`-separated components of an internal class name, in order: the
/// directories of its package, then the class itself.
pub fn name_segments(name: &String) -> (r: Vec<String>)
    ensures
        r@.len() >= 1,
        join_segments(r@.map_values(|s: String| s@)) == name@,
        forall|i: int, j: int| 0 <= i < r@.len() && 0 <= j < r@[i]@.len() ==> r@[i]@[j] != '/',
{
    let text = name.as_str();
    let n = text.unicode_len();
    let mut done: Vec<String> = Vec::new();
    let mut current = String::new();
    let mut i: usize = 0;
    while i < n
        invariant
            n == text@.len(),
            text@ == name@,
            i <= n,
            join_segments(done@.map_values(|s: String| s@).push(current@)) == text@.subrange(0, i as int),
            forall|k: int, j: int| 0 <= k < done@.len() && 0 <= j < done@[k]@.len() ==> done@[k]@[j] != '/',
            forall|j: int| 0 <= j < current@.len() ==> current@[j] != '/',
        decreases n - i,
    {
        let c = text.get_char(i);
        let ghost before = done@.map_values(|s: String| s@).push(current@);
        if c == '/' {
            let finished = current;
            current = String::new();
            done.push(finished);
            let ghost after = done@.map_values(|s: String| s@).push(current@);
            assert(after.drop_last() =~= before);
            assert(after.last() =~= Seq::<char>::empty());
        } else {
            push_char(&mut current, c);
            let ghost after = done@.map_values(|s: String| s@).push(current@);
            assert(after.drop_last() =~= before.drop_last());
            assert(before.drop_last() =~= done@.map_values(|s: String| s@));
            proof {
                if before.len() > 1 {
                    assert(join_segments(after) == join_segments(before.drop_last()) + seq!['/'] + current@);
                }
            }
        }
        assert(text@.subrange(0, i + 1) =~= text@.subrange(0, i as int).push(c));
        i = i + 1;
    }
    assert(text@.subrange(0, n as int) =~= text@);
    let ghost last = done@.map_values(|s: String| s@).push(current@);
    done.push(current);
    assert(done@.map_values(|s: String| s@) =~= last);
    done
}

} // verus!
