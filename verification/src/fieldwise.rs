//! Lenses: paths from a root value to a part of it, which can be composed,
//! with the lens laws proved for every path.
use vstd::prelude::*;

verus! {

/// A path from a root value of type `RootItem` to an `Item` inside it.
pub trait Path {
    type RootItem;
    type Item;

    /// The part the path leads to in `root`, if the path applies to it.
    spec fn part(&self, root: Self::RootItem) -> Option<Self::Item>;

    /// `root` with the part the path leads to replaced by `item`.
    spec fn replace(&self, root: Self::RootItem, item: Self::Item) -> Self::RootItem;

    /// Putting back the part that is there changes nothing.
    proof fn lemma_replace_part(&self, root: Self::RootItem)
        ensures
            self.part(root) matches Some(p) ==> self.replace(root, p) == root;

    /// The part that was put in is the part that is found, and it is put
    /// where the path already led.
    proof fn lemma_part_replace(&self, root: Self::RootItem, item: Self::Item)
        ensures
            self.part(root) is Some ==> self.part(self.replace(root, item)) == Some(item);

    /// Putting in twice is putting in the second part.
    proof fn lemma_replace_replace(&self, root: Self::RootItem, a: Self::Item, b: Self::Item)
        ensures
            self.part(root) is Some ==> self.replace(self.replace(root, a), b) == self.replace(root, b);

    /// The part of `root` the path leads to.
    fn access<'a>(&self, root: &'a Self::RootItem) -> (r: Option<&'a Self::Item>)
        ensures
            match r {
                Some(x) => self.part(*root) == Some(*x),
                None => self.part(*root) is None,
            };

    /// The part of `root` the path leads to, for changing in place.
    fn access_mut<'a>(&self, root: &'a mut Self::RootItem) -> (r: Option<&'a mut Self::Item>)
        ensures
            match r {
                Some(x) => self.part(*old(root)) == Some(*x) && *final(root) == self.replace(*old(root), *final(x)),
                None => self.part(*old(root)) is None && *final(root) == *old(root),
            };
}

/// The path that follows `A`, then `B` from where `A` leads.
pub struct Compose<A, B>(pub A, pub B);

impl<A: Path, B: Path<RootItem = A::Item>> Path for Compose<A, B> where A::Item: 'static {
    type RootItem = A::RootItem;
    type Item = B::Item;

    open spec fn part(&self, root: A::RootItem) -> Option<B::Item> {
        match self.0.part(root) {
            Some(mid) => self.1.part(mid),
            None => None,
        }
    }

    open spec fn replace(&self, root: A::RootItem, item: B::Item) -> A::RootItem {
        match self.0.part(root) {
            Some(mid) => self.0.replace(root, self.1.replace(mid, item)),
            None => root,
        }
    }

    proof fn lemma_replace_part(&self, root: A::RootItem) {
        self.0.lemma_replace_part(root);
        if let Some(mid) = self.0.part(root) {
            self.1.lemma_replace_part(mid);
        }
    }

    proof fn lemma_part_replace(&self, root: A::RootItem, item: B::Item) {
        if let Some(mid) = self.0.part(root) {
            if self.1.part(mid) is Some {
                self.1.lemma_part_replace(mid, item);
                self.0.lemma_part_replace(root, self.1.replace(mid, item));
            }
        }
    }

    proof fn lemma_replace_replace(&self, root: A::RootItem, a: B::Item, b: B::Item) {
        if let Some(mid) = self.0.part(root) {
            if self.1.part(mid) is Some {
                let mid_a = self.1.replace(mid, a);
                self.0.lemma_part_replace(root, mid_a);
                self.0.lemma_replace_replace(root, mid_a, self.1.replace(mid_a, b));
                self.1.lemma_replace_replace(mid, a, b);
            }
        }
    }

    fn access<'a>(&self, root: &'a A::RootItem) -> (r: Option<&'a B::Item>) {
        match self.0.access(root) {
            Some(mid) => self.1.access(mid),
            None => None,
        }
    }

    fn access_mut<'a>(&self, root: &'a mut A::RootItem) -> (r: Option<&'a mut B::Item>) {
        match self.0.access_mut(root) {
            Some(mid) => {
                proof { self.0.lemma_replace_part(*old(root)); }
                self.1.access_mut(mid)
            },
            None => None,
        }
    }
}


/// An example record with a nested record, and the paths to its fields.
#[derive(Debug, Clone, Copy, PartialEq, Eq, Structural)]
pub struct Foo {
    pub one: usize,
    pub two: Bar,
}

/// The nested example record.
#[derive(Debug, Clone, Copy, PartialEq, Eq, Structural)]
pub struct Bar {
    pub three: usize,
}

/// The path to the whole `Foo`.
#[allow(non_camel_case_types)]
#[derive(Clone, Copy)]
pub struct Foo__;

impl Path for Foo__ {
    type RootItem = Foo;
    type Item = Foo;

    open spec fn part(&self, root: Foo) -> Option<Foo> {
        Some(root)
    }

    open spec fn replace(&self, root: Foo, item: Foo) -> Foo {
        item
    }

    proof fn lemma_replace_part(&self, root: Foo) {
    }

    proof fn lemma_part_replace(&self, root: Foo, item: Foo) {
    }

    proof fn lemma_replace_replace(&self, root: Foo, a: Foo, b: Foo) {
    }

    fn access<'a>(&self, root: &'a Foo) -> (r: Option<&'a Foo>) {
        Some(root)
    }

    fn access_mut<'a>(&self, root: &'a mut Foo) -> (r: Option<&'a mut Foo>) {
        Some(root)
    }
}

/// The path to the `one` field of the `Foo` that `B` leads to.
#[allow(non_camel_case_types)]
pub struct Foo__one<B: Path>(pub B);

impl<B: Path<Item = Foo>> Path for Foo__one<B> {
    type RootItem = B::RootItem;
    type Item = usize;

    open spec fn part(&self, root: B::RootItem) -> Option<usize> {
        match self.0.part(root) {
            Some(v) => Some(v.one),
            None => None,
        }
    }

    open spec fn replace(&self, root: B::RootItem, item: usize) -> B::RootItem {
        match self.0.part(root) {
            Some(v) => self.0.replace(root, Foo { one: item, two: v.two }),
            None => root,
        }
    }

    proof fn lemma_replace_part(&self, root: B::RootItem) {
        self.0.lemma_replace_part(root);
    }

    proof fn lemma_part_replace(&self, root: B::RootItem, item: usize) {
        if let Some(v) = self.0.part(root) {
            self.0.lemma_part_replace(root, Foo { one: item, two: v.two });
        }
    }

    proof fn lemma_replace_replace(&self, root: B::RootItem, a: usize, b: usize) {
        if let Some(v) = self.0.part(root) {
            let item = a;
            let va = Foo { one: item, two: v.two };
            self.0.lemma_part_replace(root, va);
            let item = b;
            let vb = Foo { one: item, two: v.two };
            self.0.lemma_replace_replace(root, va, vb);
            assert(Foo { one: b, two: va.two } == vb);
        }
    }

    fn access<'a>(&self, root: &'a B::RootItem) -> (r: Option<&'a usize>) {
        match self.0.access(root) {
            Some(v) => Some(&v.one),
            None => None,
        }
    }

    fn access_mut<'a>(&self, root: &'a mut B::RootItem) -> (r: Option<&'a mut usize>) {
        match self.0.access_mut(root) {
            Some(v) => Some(&mut v.one),
            None => None,
        }
    }
}

/// The path to the `two` field of the `Foo` that `B` leads to.
#[allow(non_camel_case_types)]
pub struct Foo__two<B: Path>(pub B);

impl<B: Path<Item = Foo>> Path for Foo__two<B> {
    type RootItem = B::RootItem;
    type Item = Bar;

    open spec fn part(&self, root: B::RootItem) -> Option<Bar> {
        match self.0.part(root) {
            Some(v) => Some(v.two),
            None => None,
        }
    }

    open spec fn replace(&self, root: B::RootItem, item: Bar) -> B::RootItem {
        match self.0.part(root) {
            Some(v) => self.0.replace(root, Foo { two: item, one: v.one }),
            None => root,
        }
    }

    proof fn lemma_replace_part(&self, root: B::RootItem) {
        self.0.lemma_replace_part(root);
    }

    proof fn lemma_part_replace(&self, root: B::RootItem, item: Bar) {
        if let Some(v) = self.0.part(root) {
            self.0.lemma_part_replace(root, Foo { two: item, one: v.one });
        }
    }

    proof fn lemma_replace_replace(&self, root: B::RootItem, a: Bar, b: Bar) {
        if let Some(v) = self.0.part(root) {
            let item = a;
            let va = Foo { two: item, one: v.one };
            self.0.lemma_part_replace(root, va);
            let item = b;
            let vb = Foo { two: item, one: v.one };
            self.0.lemma_replace_replace(root, va, vb);
            assert(Foo { two: b, one: va.one } == vb);
        }
    }

    fn access<'a>(&self, root: &'a B::RootItem) -> (r: Option<&'a Bar>) {
        match self.0.access(root) {
            Some(v) => Some(&v.two),
            None => None,
        }
    }

    fn access_mut<'a>(&self, root: &'a mut B::RootItem) -> (r: Option<&'a mut Bar>) {
        match self.0.access_mut(root) {
            Some(v) => Some(&mut v.two),
            None => None,
        }
    }
}

/// The path to the whole `Bar`.
#[allow(non_camel_case_types)]
#[derive(Clone, Copy)]
pub struct Bar__;

impl Path for Bar__ {
    type RootItem = Bar;
    type Item = Bar;

    open spec fn part(&self, root: Bar) -> Option<Bar> {
        Some(root)
    }

    open spec fn replace(&self, root: Bar, item: Bar) -> Bar {
        item
    }

    proof fn lemma_replace_part(&self, root: Bar) {
    }

    proof fn lemma_part_replace(&self, root: Bar, item: Bar) {
    }

    proof fn lemma_replace_replace(&self, root: Bar, a: Bar, b: Bar) {
    }

    fn access<'a>(&self, root: &'a Bar) -> (r: Option<&'a Bar>) {
        Some(root)
    }

    fn access_mut<'a>(&self, root: &'a mut Bar) -> (r: Option<&'a mut Bar>) {
        Some(root)
    }
}

/// The path to the `three` field of the `Bar` that `B` leads to.
#[allow(non_camel_case_types)]
pub struct Bar__three<B: Path>(pub B);

impl<B: Path<Item = Bar>> Path for Bar__three<B> {
    type RootItem = B::RootItem;
    type Item = usize;

    open spec fn part(&self, root: B::RootItem) -> Option<usize> {
        match self.0.part(root) {
            Some(v) => Some(v.three),
            None => None,
        }
    }

    open spec fn replace(&self, root: B::RootItem, item: usize) -> B::RootItem {
        match self.0.part(root) {
            Some(v) => self.0.replace(root, Bar { three: item }),
            None => root,
        }
    }

    proof fn lemma_replace_part(&self, root: B::RootItem) {
        self.0.lemma_replace_part(root);
    }

    proof fn lemma_part_replace(&self, root: B::RootItem, item: usize) {
        if let Some(v) = self.0.part(root) {
            self.0.lemma_part_replace(root, Bar { three: item });
        }
    }

    proof fn lemma_replace_replace(&self, root: B::RootItem, a: usize, b: usize) {
        if let Some(v) = self.0.part(root) {
            let item = a;
            let va = Bar { three: item };
            self.0.lemma_part_replace(root, va);
            let item = b;
            let vb = Bar { three: item };
            self.0.lemma_replace_replace(root, va, vb);
            assert(Bar { three: b } == vb);
        }
    }

    fn access<'a>(&self, root: &'a B::RootItem) -> (r: Option<&'a usize>) {
        match self.0.access(root) {
            Some(v) => Some(&v.three),
            None => None,
        }
    }

    fn access_mut<'a>(&self, root: &'a mut B::RootItem) -> (r: Option<&'a mut usize>) {
        match self.0.access_mut(root) {
            Some(v) => Some(&mut v.three),
            None => None,
        }
    }
}

} // verus!
