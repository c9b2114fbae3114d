use crate::variant::texts_view;
use crate::variant::ServerVariant;
use crate::variant::ServerVariantView;
use vstd::prelude::*;
use vstd::string::StrSliceExecFns;
use vstd::string::StringExecFns;

verus! {

/// Where the files of the server lie on disk.
#[derive(Debug, Clone, PartialEq, Eq)]
pub struct Layout {
    /// Directory that holds the entry file.
    pub server_dir: String,
    /// The entry file of the server.
    pub server_file: String,
    /// The manifest that declares the dependencies.
    pub manifest_file: String,
}

/// Mathematical model of a [`Layout`].
pub struct LayoutView {
    pub server_dir: Seq<char>,
    pub server_file: Seq<char>,
    pub manifest_file: Seq<char>,
}

impl View for Layout {
    type V = LayoutView;

    open spec fn view(&self) -> LayoutView {
        LayoutView {
            server_dir: self.server_dir@,
            server_file: self.server_file@,
            manifest_file: self.manifest_file@,
        }
    }
}

/// The path of `component` below `path`: a slash parts the two unless `path`
/// is empty or ends in one.
pub open spec fn pushed(path: Seq<char>, component: Seq<char>) -> Seq<char> {
    if path.len() == 0 || path.last() == '/' {
        path + component
    } else {
        path + seq!['/'] + component
    }
}

/// The path that leads from `root` through `components`, one after the other.
pub open spec fn joined(root: Seq<char>, components: Seq<Seq<char>>) -> Seq<char>
    decreases components.len(),
{
    if components.len() == 0 {
        root
    } else {
        pushed(joined(root, components.drop_last()), components.last())
    }
}

/// All components but the last.
pub open spec fn parent(components: Seq<Seq<char>>) -> Seq<Seq<char>> {
    if components.len() == 0 {
        components
    } else {
        components.drop_last()
    }
}

/// The files of `variant` below the installation root.
pub open spec fn layout_below(root: Seq<char>, variant: ServerVariantView) -> LayoutView {
    LayoutView {
        server_dir: joined(root, parent(variant.server_path)),
        server_file: joined(root, variant.server_path),
        manifest_file: joined(root, variant.manifest_path),
    }
}

fn push_component(path: String, component: &String) -> (longer: String)
    ensures
        longer@ == pushed(path@, component@),
{
    let length: usize = path.as_str().unicode_len();
    if length == 0 || path.as_str().get_char(length - 1) == '/' {
        path.concat(component.as_str())
    } else {
        proof {
            reveal_strlit("/");
            assert("/"@ =~= seq!['/']);
        }
        path.concat("/").concat(component.as_str())
    }
}

fn join(root: &String, components: &Vec<String>, count: usize) -> (path: String)
    requires
        count <= components.len(),
    ensures
        path@ == joined(root@, texts_view(components@).take(count as int)),
{
    let mut path = root.clone();
    let mut done: usize = 0;
    while done < count
        invariant
            done <= count <= components.len(),
            path@ == joined(root@, texts_view(components@).take(done as int)),
        decreases count - done,
    {
        path = push_component(path, &components[done]);
        proof {
            let longer = texts_view(components@).take(done + 1);
            assert(longer.drop_last() =~= texts_view(components@).take(done as int));
            assert(longer.last() == components@[done as int]@);
        }
        done = done + 1;
    }
    path
}

impl Layout {
    /// Lays the files of `variant` out below the installation root.
    pub fn below(root: &String, variant: &ServerVariant) -> (layout: Layout)
        ensures
            layout@ == layout_below(root@, variant@),
    {
        let length: usize = variant.server_path.len();
        let above: usize = if length == 0 {
            0
        } else {
            length - 1
        };
        let server_dir = join(root, &variant.server_path, above);
        let server_file = join(root, &variant.server_path, length);
        let manifest_file = join(root, &variant.manifest_path, variant.manifest_path.len());
        proof {
            let server = texts_view(variant.server_path@);
            let manifest = texts_view(variant.manifest_path@);
            assert(server.take(above as int) =~= parent(server));
            assert(server.take(length as int) =~= server);
            assert(manifest.take(manifest.len() as int) =~= manifest);
        }
        Layout { server_dir, server_file, manifest_file }
    }
}

} // verus!
