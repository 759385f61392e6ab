use vstd::prelude::*;

verus! {

/// A filesystem path as a root followed by name components, each a byte string.
pub struct FsPath {
    pub parts: Vec<Vec<u8>>,
}

impl View for FsPath {
    type V = Seq<Seq<u8>>;

    open spec fn view(&self) -> Seq<Seq<u8>> {
        self.parts@.map_values(|p: Vec<u8>| p@)
    }
}

/// A copy of a byte string.
pub fn copy_bytes(v: &[u8]) -> (r: Vec<u8>)
    ensures
        r@ == v@,
{
    let mut r: Vec<u8> = Vec::new();
    let mut i: usize = 0;
    while i < v.len()
        invariant
            i <= v@.len(),
            r@ == v@.subrange(0, i as int),
        decreases v@.len() - i,
    {
        r.push(v[i]);
        i = i + 1;
        assert(r@ =~= v@.subrange(0, i as int));
    }
    assert(v@.subrange(0, v@.len() as int) =~= v@);
    r
}

impl FsPath {
    /// A path that holds only its root.
    pub fn new(root: Vec<u8>) -> (r: FsPath)
        ensures
            r@ == seq![root@],
    {
        let mut parts: Vec<Vec<u8>> = Vec::new();
        parts.push(root);
        let r = FsPath { parts };
        assert(r@ =~= seq![root@]);
        r
    }

    /// A copy of the path.
    pub fn clone_path(&self) -> (r: FsPath)
        ensures
            r@ == self@,
    {
        let mut parts: Vec<Vec<u8>> = Vec::new();
        let mut i: usize = 0;
        while i < self.parts.len()
            invariant
                i <= self@.len(),
                parts@.map_values(|p: Vec<u8>| p@) == self@.subrange(0, i as int),
            decreases self@.len() - i,
        {
            let ghost before = parts@.map_values(|p: Vec<u8>| p@);
            parts.push(copy_bytes(self.parts[i].as_slice()));
            i = i + 1;
            assert(parts@.map_values(|p: Vec<u8>| p@) =~= before.push(self@[i - 1]));
            assert(self@.subrange(0, i as int) =~= self@.subrange(0, i - 1).push(self@[i - 1]));
        }
        let r = FsPath { parts };
        assert(r@ =~= self@);
        r
    }

    /// The same path with one more component at its end.
    pub fn join(&self, name: Vec<u8>) -> (r: FsPath)
        ensures
            r@ == self@.push(name@),
    {
        let mut r = self.clone_path();
        let ghost before = r@;
        r.parts.push(name);
        assert(r@ =~= before.push(name@));
        r
    }

    /// The last component: the entry's own name.
    pub fn file_name(&self) -> (r: Vec<u8>)
        requires
            self@.len() >= 1,
        ensures
            r@ == self@.last(),
    {
        let n = self.parts.len();
        copy_bytes(self.parts[n - 1].as_slice())
    }
}

} // verus!

verus! {

/// A filesystem failure, as the filesystem described it.
pub struct IoFailure {
    pub message: String,
}

} // verus!
