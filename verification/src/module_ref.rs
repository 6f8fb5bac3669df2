//! One scanned source module: where it lives, its path relative to the
//! source root (as path components), and the test functions found in it.
//! `to_source` renders the invocation lines that a generated runner emits
//! for the module.

use crate::text::joined;
use crate::text::str_eq;
use crate::text::string_views;
use vstd::prelude::*;
use vstd::string::StrSliceExecFns;
use vstd::string::StringExecFns;

verus! {

/// Whether the component has a dot anywhere after its first character: only
/// such a dot starts an extension.
pub open spec fn has_dot_after_first(c: Seq<char>) -> bool {
    exists|j: int| 1 <= j < c.len() && c[j] == '.'
}

/// The component with its extension removed: everything before the last dot,
/// unless the only dot is the leading character.
pub open spec fn stem_of(c: Seq<char>) -> Seq<char>
    decreases c.len(),
{
    if !has_dot_after_first(c) {
        c
    } else if c.last() == '.' {
        c.drop_last()
    } else {
        stem_of(c.drop_last())
    }
}

/// When the last dot of the component sits at index `j`, the stem is the
/// part before it.
proof fn lemma_stem_at(c: Seq<char>, j: int)
    requires
        1 <= j < c.len(),
        c[j] == '.',
        forall|m: int| j < m < c.len() ==> c[m] != '.',
    ensures
        stem_of(c) == c.take(j),
    decreases c.len(),
{
    assert(has_dot_after_first(c));
    if j == c.len() - 1 {
        assert(c.drop_last() =~= c.take(j));
    } else {
        assert(c.last() != '.');
        assert(c.drop_last()[j] == '.');
        lemma_stem_at(c.drop_last(), j);
        assert(c.drop_last().take(j) =~= c.take(j));
    }
}

/// The component with its extension removed.
fn stem_of_component(c: &str) -> (r: String)
    ensures
        r@ == stem_of(c@),
{
    let n: usize = c.unicode_len();
    let mut j: usize = n;
    while j > 1
        invariant
            j <= n,
            n == c@.len(),
            forall|m: int| j <= m < n ==> c@[m] != '.',
        decreases j,
    {
        j = j - 1;
        if c.get_char(j) == '.' {
            let r = c.substring_char(0, j).to_owned();
            proof {
                lemma_stem_at(c@, j as int);
                assert(c@.subrange(0, j as int) =~= c@.take(j as int));
            }
            return r;
        }
    }
    proof {
        if has_dot_after_first(c@) {
            let m = choose|m: int| 1 <= m < c@.len() && c@[m] == '.';
        }
    }
    c.to_owned()
}

/// The module path components that name the module in import syntax: a
/// trailing crate-root file name is dropped, and the last remaining
/// component loses its extension.
pub open spec fn module_components(rel: Seq<Seq<char>>) -> Seq<Seq<char>> {
    let base = if rel.len() > 0 && (rel.last() == "main.rs"@ || rel.last() == "lib.rs"@) {
        rel.drop_last()
    } else {
        rel
    };
    if base.len() == 0 {
        base
    } else {
        base.update(base.len() - 1, stem_of(base.last()))
    }
}

/// The import prefix put before each test function name: the components
/// joined with the path separator, with one more separator at the end when
/// there is anything at all.
pub open spec fn import_prefix(comps: Seq<Seq<char>>) -> Seq<char> {
    let path = joined(comps, "::"@);
    if path.len() == 0 {
        path
    } else {
        path + "::"@
    }
}

/// One generated invocation line per test function.
pub open spec fn call_lines(prefix: Seq<char>, fns: Seq<Seq<char>>) -> Seq<char>
    decreases fns.len(),
{
    if fns.len() == 0 {
        Seq::empty()
    } else {
        call_lines(prefix, fns.drop_last()) + prefix + fns.last() + "(&mut recorder);\n"@
    }
}

/// The full generated source for one module.
pub open spec fn module_source(m: ModuleRefView) -> Seq<char> {
    call_lines(import_prefix(module_components(m.relative_path)), m.test_functions)
}

/// One scanned source module and the test functions found in it.
#[derive(Debug, Clone, PartialEq)]
pub struct ModuleRef {
    path: String,
    relative_path: Vec<String>,
    test_functions: Vec<String>,
}

/// The mathematical value of a [`ModuleRef`].
#[verifier::ext_equal]
pub ghost struct ModuleRefView {
    pub path: Seq<char>,
    pub relative_path: Seq<Seq<char>>,
    pub test_functions: Seq<Seq<char>>,
}

impl View for ModuleRef {
    type V = ModuleRefView;

    closed spec fn view(&self) -> ModuleRefView {
        ModuleRefView {
            path: self.path@,
            relative_path: string_views(self.relative_path@),
            test_functions: string_views(self.test_functions@),
        }
    }
}

impl ModuleRef {
    /// A module with no test functions yet, at the given location; the
    /// relative path is handed over as its components.
    pub fn new(path: String, relative_path: Vec<String>) -> (r: Self)
        ensures
            r@.path == path@,
            r@.relative_path == string_views(relative_path@),
            r@.test_functions == Seq::<Seq<char>>::empty(),
    {
        let r = ModuleRef { path, relative_path, test_functions: Vec::new() };
        proof {
            assert(r@.test_functions =~= Seq::<Seq<char>>::empty());
        }
        r
    }

    /// Where the module's source file lives.
    pub fn get_path(&self) -> (r: &String)
        ensures
            r@ == self@.path,
    {
        &self.path
    }

    /// Note one more test function found in the module.
    pub fn add_function(&mut self, f: String)
        ensures
            final(self)@.path == old(self)@.path,
            final(self)@.relative_path == old(self)@.relative_path,
            final(self)@.test_functions == old(self)@.test_functions.push(f@),
    {
        let ghost fv = f@;
        self.test_functions.push(f);
        proof {
            assert(self@.test_functions =~= old(self)@.test_functions.push(fv));
        }
    }

    /// Whether any test function was found in the module.
    pub fn has_test_functions(&self) -> (r: bool)
        ensures
            r == (self@.test_functions.len() != 0),
    {
        !self.test_functions.is_empty()
    }

    /// Render the generated invocation lines for this module: the module's
    /// import path prefix, then one call line per test function.
    pub fn to_source(&self) -> (r: String)
        ensures
            r@ == module_source(self@),
    {
        let ghost rel = self@.relative_path;

        // Drop a trailing crate-root file name, keeping the directory part.
        let keep: usize = if self.relative_path.len() > 0 {
            let last = &self.relative_path[self.relative_path.len() - 1];
            if str_eq(last.as_str(), "main.rs") || str_eq(last.as_str(), "lib.rs") {
                self.relative_path.len() - 1
            } else {
                self.relative_path.len()
            }
        } else {
            0
        };
        let mut comps: Vec<String> = Vec::new();
        let mut i: usize = 0;
        while i < keep
            invariant
                i <= keep,
                keep <= self.relative_path.len(),
                string_views(comps@) =~= string_views(self.relative_path@).take(i as int),
            decreases keep - i,
        {
            let ghost prev = string_views(comps@);
            let elem = self.relative_path[i].clone();
            proof {
                assert(elem@ == self.relative_path@[i as int]@);
            }
            comps.push(elem);
            proof {
                assert(string_views(comps@) =~= prev.push(self.relative_path@[i as int]@));
                assert(string_views(comps@) =~= string_views(self.relative_path@).take(i + 1));
            }
            i = i + 1;
        }
        let ghost base = if rel.len() > 0 && (rel.last() == "main.rs"@ || rel.last() == "lib.rs"@) {
            rel.drop_last()
        } else {
            rel
        };
        proof {
            assert(string_views(comps@) =~= base);
        }

        // Strip the extension from the last remaining component.
        if comps.len() > 0 {
            let ghost pre = string_views(comps@);
            let last = comps.pop().unwrap();
            let stem = stem_of_component(last.as_str());
            comps.push(stem);
            proof {
                assert(string_views(comps@) =~= pre.update(pre.len() - 1, stem_of(pre.last())));
            }
        }
        proof {
            assert(string_views(comps@) =~= module_components(rel));
        }

        // Join the components into the import prefix.
        let ghost cv = string_views(comps@);
        let mut prefix = String::new();
        let mut i: usize = 0;
        while i < comps.len()
            invariant
                i <= comps.len(),
                cv == string_views(comps@),
                prefix@ == joined(cv.take(i as int), "::"@),
            decreases comps.len() - i,
        {
            proof {
                assert(cv.take(i + 1).drop_last() =~= cv.take(i as int));
                assert(cv.take(i + 1).last() == cv[i as int]);
            }
            if i > 0 {
                prefix.append("::");
            } else {
                proof {
                    assert(cv.take(1) =~= seq![cv[0]]);
                }
            }
            prefix.append(comps[i].as_str());
            proof {
                assert(prefix@ =~= joined(cv.take(i + 1), "::"@));
            }
            i = i + 1;
        }
        proof {
            assert(cv.take(comps@.len() as int) =~= cv);
        }
        if !prefix.as_str().is_empty() {
            prefix.append("::");
        }
        proof {
            assert(prefix@ == import_prefix(module_components(rel)));
        }

        // One invocation line per test function.
        let ghost fv = self@.test_functions;
        let mut out = String::new();
        let mut i: usize = 0;
        while i < self.test_functions.len()
            invariant
                i <= self.test_functions.len(),
                fv == self@.test_functions,
                prefix@ == import_prefix(module_components(rel)),
                out@ == call_lines(prefix@, fv.take(i as int)),
            decreases self.test_functions.len() - i,
        {
            proof {
                assert(fv.take(i + 1).drop_last() =~= fv.take(i as int));
                assert(fv.take(i + 1).last() == fv[i as int]);
            }
            out.append(prefix.as_str());
            out.append(self.test_functions[i].as_str());
            out.append("(&mut recorder);\n");
            proof {
                assert(out@ =~= call_lines(prefix@, fv.take(i + 1)));
            }
            i = i + 1;
        }
        proof {
            assert(fv.take(self.test_functions@.len() as int) =~= fv);
        }
        out
    }
}

} // verus!
