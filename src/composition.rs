//! Files and folders: both are components that can be searched, a folder by
//! searching everything it holds.
use vstd::prelude::*;
use vstd::string::StringExecFns;

verus! {

/// The line reported when a file is searched.
pub open spec fn file_line(keyword: Seq<char>, name: Seq<char>) -> Seq<char> {
    "Searching for keyword "@ + keyword + " in file "@ + name
}

/// The line reported when a folder is searched.
pub open spec fn folder_line(keyword: Seq<char>, name: Seq<char>) -> Seq<char> {
    "Searching recursively for keyword "@ + keyword + " in folder "@ + name
}

/// The texts of a list of owned strings.
pub open spec fn texts(v: Seq<String>) -> Seq<Seq<char>> {
    v.map_values(|s: String| s@)
}

/// Anything a folder can hold.
pub enum Node {
    File(File),
    Folder(Folder),
}

/// The lines reported by a search of `n`, in the order of the search.
pub closed spec fn node_lines(n: Node, keyword: Seq<char>) -> Seq<Seq<char>>
    decreases n,
{
    match n {
        Node::File(f) => seq![file_line(keyword, f.name@)],
        Node::Folder(f) => seq![folder_line(keyword, f.name@)] + nodes_lines(
            f.components@,
            keyword,
        ),
    }
}

/// The lines reported by a search of each of `s` in turn.
pub closed spec fn nodes_lines(s: Seq<Node>, keyword: Seq<char>) -> Seq<Seq<char>>
    decreases s,
{
    if s.len() == 0 {
        Seq::empty()
    } else {
        nodes_lines(s.subrange(0, s.len() - 1), keyword) + node_lines(s[s.len() - 1], keyword)
    }
}

pub trait Component: Sized {
    /// This component as a node of a folder tree.
    spec fn as_node(&self) -> Node;

    fn into_node(self) -> (r: Node)
        ensures
            r == self.as_node(),
    ;

    /// The lines that a search for `keyword` reports, in order.
    fn search(&self, keyword: &str) -> (r: Vec<String>)
        ensures
            texts(r@) == node_lines(self.as_node(), keyword@),
    ;
}

/// Appends to `out` the lines of a search of `n`.
fn search_node(n: &Node, keyword: &str, out: &mut Vec<String>)
    ensures
        texts(final(out)@) == texts(old(out)@) + node_lines(*n, keyword@),
    decreases n,
{
    match n {
        Node::File(f) => {
            let line = f.line(keyword);
            out.push(line);
            assert(texts(final(out)@) =~= texts(old(out)@) + node_lines(*n, keyword@));
        },
        Node::Folder(f) => {
            proof {
                assert(decreases_to!(*n => n->Folder_0));
            }
            search_folder(f, keyword, out);
        },
    }
}

/// Appends to `out` the lines of a search of folder `f`.
fn search_folder(f: &Folder, keyword: &str, out: &mut Vec<String>)
    ensures
        texts(final(out)@) == texts(old(out)@) + node_lines(Node::Folder(*f), keyword@),
    decreases f,
{
    let line = f.line(keyword);
    out.push(line);
    let ghost start = texts(out@);
    let mut i: usize = 0;
    while i < f.components.len()
        invariant
            i <= f.components.len(),
            texts(out@) == start + nodes_lines(f.components@.subrange(0, i as int), keyword@),
        decreases f.components.len() - i,
    {
        proof {
            broadcast use vstd::std_specs::vec::axiom_vec_index_decreases;

            assert(decreases_to!(*f => f.components));
            assert(decreases_to!(f.components => f.components[i as int]));
        }
        search_node(&f.components[i], keyword, out);
        proof {
            let s = f.components@.subrange(0, i + 1);
            assert(s.subrange(0, s.len() - 1) =~= f.components@.subrange(0, i as int));
        }
        i = i + 1;
    }
    assert(f.components@.subrange(0, i as int) =~= f.components@);
    assert(texts(final(out)@) =~= texts(old(out)@) + node_lines(Node::Folder(*f), keyword@));
}

pub struct File {
    name: &'static str,
}

impl File {
    pub closed spec fn spec_name(&self) -> Seq<char> {
        self.name@
    }

    pub fn new(name: &'static str) -> (r: Self)
        ensures
            r.spec_name() == name@,
    {
        File { name }
    }

    fn line(&self, keyword: &str) -> (r: String)
        ensures
            r@ == file_line(keyword@, self.name@),
    {
        let mut s = "Searching for keyword ".to_string();
        s.append(keyword);
        s.append(" in file ");
        s.append(self.name);
        s
    }
}

impl Component for File {
    closed spec fn as_node(&self) -> Node {
        Node::File(*self)
    }

    fn into_node(self) -> (r: Node) {
        Node::File(self)
    }

    fn search(&self, keyword: &str) -> (r: Vec<String>) {
        let line = self.line(keyword);
        let mut out: Vec<String> = Vec::new();
        out.push(line);
        assert(texts(out@) =~= node_lines(self.as_node(), keyword@));
        out
    }
}

pub struct Folder {
    name: &'static str,
    components: Vec<Node>,
}

impl Folder {
    /// The components the folder holds, in the order they were added.
    pub closed spec fn spec_components(&self) -> Seq<Node> {
        self.components@
    }

    pub closed spec fn spec_name(&self) -> Seq<char> {
        self.name@
    }

    pub fn new(name: &'static str) -> (r: Self)
        ensures
            r.spec_name() == name@,
            r.spec_components() == Seq::<Node>::empty(),
    {
        Folder { name, components: Vec::new() }
    }

    pub fn add<C: Component>(&mut self, component: C)
        ensures
            final(self).spec_name() == old(self).spec_name(),
            final(self).spec_components() == old(self).spec_components().push(
                component.as_node(),
            ),
    {
        self.components.push(component.into_node());
    }

    fn line(&self, keyword: &str) -> (r: String)
        ensures
            r@ == folder_line(keyword@, self.name@),
    {
        let mut s = "Searching recursively for keyword ".to_string();
        s.append(keyword);
        s.append(" in folder ");
        s.append(self.name);
        s
    }
}

impl Component for Folder {
    closed spec fn as_node(&self) -> Node {
        Node::Folder(*self)
    }

    fn into_node(self) -> (r: Node) {
        Node::Folder(self)
    }

    fn search(&self, keyword: &str) -> (r: Vec<String>) {
        let mut out: Vec<String> = Vec::new();
        proof {
            assert(texts(out@) =~= Seq::<Seq<char>>::empty());
        }
        search_folder(self, keyword, &mut out);
        assert(texts(out@) =~= node_lines(self.as_node(), keyword@));
        out
    }
}

} // verus!
