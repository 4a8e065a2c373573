use vstd::prelude::*;
use vstd::string::*;

use crate::strmap::StringMap;

verus! {

/// Identity and fetch intent for one external artifact. The working copy of
/// a dependency always lives at `target/name`.
#[derive(Debug, Clone, PartialEq)]
pub struct Dependency {
    pub name: String,
    pub vcs: String,
    pub url: String,
    pub version: String,
    pub target: String,
    pub options: StringMap,
}

/// The path of the dependency's working copy: its name under its target
/// directory.
pub open spec fn full_path_spec(dep: Dependency) -> Seq<char> {
    if dep.target@.len() == 0 {
        dep.name@
    } else if dep.target@.last() == '/' {
        dep.target@ + dep.name@
    } else {
        dep.target@ + "/"@ + dep.name@
    }
}

/// The three macros every backend operation can rely on.
pub open spec fn base_macro_map(dep: Dependency) -> Map<Seq<char>, Seq<char>> {
    Map::empty()
        .insert("DEP_NAME"@, dep.name@)
        .insert("DEP_URL"@, dep.url@)
        .insert("DEP_VERSION"@, dep.version@)
}

/// `m` extended with one macro per dependency option, each key prefixed.
pub open spec fn with_option_macros(
    m: Map<Seq<char>, Seq<char>>,
    opts: Seq<(String, String)>,
) -> Map<Seq<char>, Seq<char>>
    decreases opts.len(),
{
    if opts.len() == 0 {
        m
    } else {
        with_option_macros(m, opts.drop_last()).insert(
            "DEP_OPT_"@ + opts.last().0@,
            opts.last().1@,
        )
    }
}

/// The macro table a dependency offers to a backend operation.
pub open spec fn macro_map_spec(dep: Dependency) -> Map<Seq<char>, Seq<char>> {
    with_option_macros(base_macro_map(dep), dep.options.pairs@)
}

impl Dependency {
    pub fn get_full_path(&self) -> (r: String)
        ensures
            r@ == full_path_spec(*self),
    {
        let n = self.target.as_str().unicode_len();
        if n == 0 {
            self.name.clone()
        } else if self.target.as_str().get_char(n - 1) == '/' {
            self.target.clone().concat(self.name.as_str())
        } else {
            self.target.clone().concat("/").concat(self.name.as_str())
        }
    }

    /// The lock record a successful acquisition leaves behind: this
    /// dependency with its version field replaced and every other field kept.
    pub fn with_version(&self, version: String) -> (r: Dependency)
        ensures
            r.name == self.name,
            r.vcs == self.vcs,
            r.url == self.url,
            r.target == self.target,
            r.options.pairs@ == self.options.pairs@,
            r.version == version,
    {
        Dependency {
            name: self.name.clone(),
            vcs: self.vcs.clone(),
            url: self.url.clone(),
            version,
            target: self.target.clone(),
            options: self.options.duplicate(),
        }
    }

    /// Builds the macro table of this dependency: the three base macros, then
    /// one `DEP_OPT_`-prefixed macro per option, in option order.
    pub fn build_macro_map(&self) -> (r: StringMap)
        ensures
            r@ == macro_map_spec(*self),
            r.pairs@.len() == 3 + self.options.pairs@.len(),
    {
        let mut result = StringMap::new();
        result.insert("DEP_NAME".to_owned(), self.name.clone());
        result.insert("DEP_URL".to_owned(), self.url.clone());
        result.insert("DEP_VERSION".to_owned(), self.version.clone());
        let n = self.options.len();
        for i in 0..n
            invariant
                n == self.options.pairs@.len(),
                result.pairs@.len() == 3 + i,
                result@ == with_option_macros(
                    base_macro_map(*self),
                    self.options.pairs@.take(i as int),
                ),
        {
            let key = "DEP_OPT_".to_owned().concat(self.options.pairs[i].0.as_str());
            let value = self.options.pairs[i].1.clone();
            result.insert(key, value);
            proof {
                assert(self.options.pairs@.take(i + 1).drop_last() =~= self.options.pairs@.take(
                    i as int,
                ));
                assert(self.options.pairs@.take(i + 1).last() == self.options.pairs@[i as int]);
            }
        }
        proof {
            assert(self.options.pairs@.take(n as int) =~= self.options.pairs@);
        }
        result
    }
}

} // verus!
