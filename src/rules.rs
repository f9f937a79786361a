//! Rule sets: the tripwire paths whose request bans the client, built from
//! named presets of known probe paths and from custom paths.

use vstd::prelude::*;

verus! {

/// The paths of the named preset; an unknown name has none.
pub open spec fn preset_paths(name: Seq<char>) -> Seq<Seq<char>> {
    if name == "wordpress"@ {
        seq![
            "/wp-login.php"@,
            "/cms/wp-includes/wlwmanifest.xml"@,
            "/xmlrpc.php"@,
            "/wp-json/wp/v2"@,
        ]
    } else if name == "php"@ {
        seq![
            "/phpmyadmin"@,
            "/admin.php"@,
            "/config.php"@,
            "/setup.php"@,
            "/test.php"@,
            "/dbadmin"@,
            "/mysql"@,
            "/pma"@,
            "/phpinfo.php"@,
            "/vendor/phpunit/phpunit/src/Util/PHP/eval-stdin.php"@,
        ]
    } else if name == "config"@ {
        seq!["/.env"@, "/env"@, "/config.json"@, "/config.yaml"@, "/config.inc.php"@]
    } else {
        seq![]
    }
}

/// The text of each string in a sequence.
pub open spec fn texts(s: Seq<&str>) -> Seq<Seq<char>> {
    s.map_values(|x: &str| x@)
}

/// Every path of every named preset.
pub open spec fn preset_union(names: Seq<Seq<char>>) -> Set<Seq<char>> {
    Set::new(|p: Seq<char>| exists|i: int| 0 <= i < names.len() && #[trigger] preset_paths(names[i]).contains(p))
}

/// The paths of a sequence, as a set.
pub open spec fn path_set(paths: Seq<Seq<char>>) -> Set<Seq<char>> {
    Set::new(|p: Seq<char>| paths.contains(p))
}

/// A set of paths, matched by exact string equality. The paths are held in
/// a vector, each once: vstd specifies a hash set only for keys of integer
/// type, so a `HashSet<String>` would let nothing be proved of membership.
#[derive(Clone, Debug)]
pub struct RuleSet {
    paths: Vec<String>,
}

impl View for RuleSet {
    type V = Set<Seq<char>>;

    closed spec fn view(&self) -> Set<Seq<char>> {
        Set::new(|p: Seq<char>| exists|i: int| 0 <= i < self.paths.len() && #[trigger] self.paths@[i]@ == p)
    }
}

impl RuleSet {
    /// No path is held twice.
    pub closed spec fn wf(&self) -> bool {
        forall|i: int, j: int|
            0 <= i < j < self.paths.len() ==> #[trigger] self.paths@[i]@ != #[trigger] self.paths@[j]@
    }

    /// An empty rule set.
    pub fn new() -> (r: RuleSet)
        ensures
            r.wf(),
            r@ == Set::<Seq<char>>::empty(),
    {
        let r = RuleSet { paths: Vec::new() };
        assert(r@ =~= Set::<Seq<char>>::empty());
        r
    }

    /// Whether `path` is one of the rule set's paths.
    pub fn contains(&self, path: &str) -> (r: bool)
        ensures
            r == self@.contains(path@),
    {
        let p = path.to_owned();
        let mut i: usize = 0;
        while i < self.paths.len()
            invariant
                i <= self.paths.len(),
                p@ == path@,
                forall|j: int| 0 <= j < i ==> #[trigger] self.paths@[j]@ != path@,
            decreases self.paths.len() - i,
        {
            if self.paths[i] == p {
                assert(self.paths@[i as int]@ == path@);
                return true;
            }
            i += 1;
        }
        false
    }

    /// Adds `path`; a path already present is not added again.
    pub fn insert(&mut self, path: String)
        ensures
            old(self).wf() ==> final(self).wf(),
            final(self)@ == old(self)@.insert(path@),
    {
        if !self.contains(path.as_str()) {
            let ghost before = self.paths@;
            self.paths.push(path);
            assert(self.paths@[before.len() as int] == path);
            assert forall|q: Seq<char>| #[trigger] self@.contains(q) == old(self)@.insert(path@).contains(q) by {
                if old(self)@.contains(q) {
                    let i = choose|i: int| 0 <= i < before.len() && #[trigger] before[i]@ == q;
                    assert(self.paths@[i]@ == q);
                }
                if self@.contains(q) {
                    let i = choose|i: int| 0 <= i < self.paths.len() && #[trigger] self.paths@[i]@ == q;
                    if i < before.len() {
                        assert(before[i]@ == q);
                    }
                }
            }
            assert(self@ =~= old(self)@.insert(path@));
        } else {
            assert(old(self)@.insert(path@) =~= old(self)@);
        }
    }

    /// Adds every path of `other`.
    pub fn extend(&mut self, other: RuleSet)
        ensures
            old(self).wf() ==> final(self).wf(),
            final(self)@ == old(self)@.union(other@),
    {
        let mut i: usize = 0;
        while i < other.paths.len()
            invariant
                i <= other.paths.len(),
                old(self).wf() ==> self.wf(),
                self@ == old(self)@.union(
                    Set::new(|p: Seq<char>| exists|j: int| 0 <= j < i && #[trigger] other.paths@[j]@ == p),
                ),
            decreases other.paths.len() - i,
        {
            let path = other.paths[i].clone();
            self.insert(path);
            assert(self@ =~= old(self)@.union(
                Set::new(|p: Seq<char>| exists|j: int| 0 <= j < i + 1 && #[trigger] other.paths@[j]@ == p),
            )) by {
                assert(other.paths@[i as int]@ == path@);
            }
            i += 1;
        }
        assert(self@ =~= old(self)@.union(other@));
    }
}

/// The paths of a single preset: `"wordpress"`, `"php"` or `"config"`. An
/// unknown name gives no paths.
pub fn preset_rules(name: &str) -> (r: Vec<&'static str>)
    ensures
        texts(r@) == preset_paths(name@),
{
    let n = name.to_owned();
    let r = if n == "wordpress".to_owned() {
        vec![
            "/wp-login.php",
            "/cms/wp-includes/wlwmanifest.xml",
            "/xmlrpc.php",
            "/wp-json/wp/v2",
        ]
    } else if n == "php".to_owned() {
        vec![
            "/phpmyadmin",
            "/admin.php",
            "/config.php",
            "/setup.php",
            "/test.php",
            "/dbadmin",
            "/mysql",
            "/pma",
            "/phpinfo.php",
            "/vendor/phpunit/phpunit/src/Util/PHP/eval-stdin.php",
        ]
    } else if n == "config".to_owned() {
        vec!["/.env", "/env", "/config.json", "/config.yaml", "/config.inc.php"]
    } else {
        Vec::new()
    };
    assert(texts(r@) =~= preset_paths(name@));
    r
}

proof fn lemma_path_set_push(s: Seq<Seq<char>>, j: int)
    requires
        0 <= j < s.len(),
    ensures
        path_set(s.take(j + 1)) == path_set(s.take(j)).insert(s[j]),
{
    assert forall|p: Seq<char>| #[trigger] path_set(s.take(j + 1)).contains(p) == path_set(s.take(j)).insert(s[j]).contains(p) by {
        if s.take(j + 1).contains(p) {
            let k = choose|k: int| 0 <= k < j + 1 && #[trigger] s.take(j + 1)[k] == p;
            if k < j {
                assert(s.take(j)[k] == p);
            }
        }
        if s.take(j).contains(p) {
            let k = choose|k: int| 0 <= k < j && #[trigger] s.take(j)[k] == p;
            assert(s.take(j + 1)[k] == p);
        }
        if p == s[j] {
            assert(s.take(j + 1)[j] == p);
        }
    }
    assert(path_set(s.take(j + 1)) =~= path_set(s.take(j)).insert(s[j]));
}

/// A rule set of every path of the named presets.
pub fn from_preset_rules(presets: &[&str]) -> (r: RuleSet)
    ensures
        r.wf(),
        r@ == preset_union(texts(presets@)),
{
    let ghost names = texts(presets@);
    let mut set = RuleSet::new();
    let mut i: usize = 0;
    while i < presets.len()
        invariant
            i <= presets.len(),
            names == texts(presets@),
            names.len() == presets.len(),
            set.wf(),
            set@ == preset_union(names.take(i as int)),
        decreases presets.len() - i,
    {
        let paths = preset_rules(presets[i]);
        let ghost done = set@;
        let mut j: usize = 0;
        while j < paths.len()
            invariant
                i < presets.len(),
                j <= paths.len(),
                texts(paths@) == preset_paths(names[i as int]),
                set.wf(),
                set@ == done.union(path_set(texts(paths@).take(j as int))),
            decreases paths.len() - j,
        {
            set.insert(paths[j].to_owned());
            proof {
                lemma_path_set_push(texts(paths@), j as int);
            }
            assert(set@ =~= done.union(path_set(texts(paths@).take(j + 1))));
            j += 1;
        }
        assert(texts(paths@).take(j as int) =~= texts(paths@));
        assert forall|p: Seq<char>| #[trigger] set@.contains(p) == preset_union(names.take(i + 1)).contains(p) by {
            if preset_union(names.take(i + 1)).contains(p) {
                let a = choose|a: int| 0 <= a < i + 1 && #[trigger] preset_paths(names.take(i + 1)[a]).contains(p);
                if a < i {
                    assert(preset_paths(names.take(i as int)[a]).contains(p));
                }
            }
            if done.contains(p) {
                let a = choose|a: int| 0 <= a < i && #[trigger] preset_paths(names.take(i as int)[a]).contains(p);
                assert(preset_paths(names.take(i + 1)[a]).contains(p));
            }
            if path_set(texts(paths@)).contains(p) {
                assert(preset_paths(names.take(i + 1)[i as int]).contains(p));
            }
        }
        assert(set@ =~= preset_union(names.take(i + 1)));
        i += 1;
    }
    assert(names.take(i as int) =~= names);
    set
}

/// A rule set of the given custom paths.
pub fn from_custom_rules(custom: &[&str]) -> (r: RuleSet)
    ensures
        r.wf(),
        r@ == path_set(texts(custom@)),
{
    let mut set = RuleSet::new();
    let mut i: usize = 0;
    while i < custom.len()
        invariant
            i <= custom.len(),
            set.wf(),
            set@ == path_set(texts(custom@).take(i as int)),
        decreases custom.len() - i,
    {
        set.insert(custom[i].to_owned());
        proof {
            lemma_path_set_push(texts(custom@), i as int);
        }
        i += 1;
    }
    assert(texts(custom@).take(i as int) =~= texts(custom@));
    set
}

/// A rule set of every path of the named presets and every custom path.
pub fn from_rules(presets: &[&str], custom: &[&str]) -> (r: RuleSet)
    ensures
        r.wf(),
        r@ == preset_union(texts(presets@)).union(path_set(texts(custom@))),
{
    let mut set = from_preset_rules(presets);
    set.extend(from_custom_rules(custom));
    set
}

} // verus!
