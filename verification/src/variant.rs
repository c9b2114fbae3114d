use vstd::prelude::*;
use vstd::string::StringExecFns;

verus! {

/// A package that the server needs, with the range of versions that will do.
#[derive(Debug, Clone, PartialEq, Eq)]
pub struct Dependency {
    pub name: String,
    pub version: String,
}

/// Mathematical model of a [`Dependency`].
pub struct DependencyView {
    pub name: Seq<char>,
    pub version: Seq<char>,
}

impl View for Dependency {
    type V = DependencyView;

    open spec fn view(&self) -> DependencyView {
        DependencyView { name: self.name@, version: self.version@ }
    }
}

/// Which server package is launched: where its entry file lies, what has to
/// be installed for it, and under which names it reads its settings.
#[derive(Debug, Clone, PartialEq, Eq)]
pub struct ServerVariant {
    /// Name of the package, as messages show it.
    pub name: String,
    /// Components of the entry file's path below the installation root.
    pub server_path: Vec<String>,
    /// Components of the manifest's path below the installation root.
    pub manifest_path: Vec<String>,
    /// Text of the manifest that is written where none exists.
    pub manifest: String,
    /// Text of the entry file, where the variant brings its own; `None` where
    /// the package installer produces the file.
    pub embedded_script: Option<String>,
    /// The packages to install, in this order.
    pub dependencies: Vec<Dependency>,
    /// Name of the environment variable for the sender address.
    pub sender_variable: String,
    /// Name of the environment variable for the reply-to addresses.
    pub reply_to_variable: String,
}

/// Mathematical model of a [`ServerVariant`].
pub struct ServerVariantView {
    pub name: Seq<char>,
    pub server_path: Seq<Seq<char>>,
    pub manifest_path: Seq<Seq<char>>,
    pub manifest: Seq<char>,
    pub embedded_script: Option<Seq<char>>,
    pub dependencies: Seq<DependencyView>,
    pub sender_variable: Seq<char>,
    pub reply_to_variable: Seq<char>,
}

/// Views of a list of strings.
pub open spec fn texts_view(texts: Seq<String>) -> Seq<Seq<char>> {
    Seq::new(texts.len(), |i: int| texts[i]@)
}

/// Views of a list of dependencies.
pub open spec fn dependencies_view(dependencies: Seq<Dependency>) -> Seq<DependencyView> {
    Seq::new(dependencies.len(), |i: int| dependencies[i]@)
}

impl View for ServerVariant {
    type V = ServerVariantView;

    open spec fn view(&self) -> ServerVariantView {
        ServerVariantView {
            name: self.name@,
            server_path: texts_view(self.server_path@),
            manifest_path: texts_view(self.manifest_path@),
            manifest: self.manifest@,
            embedded_script: match self.embedded_script {
                Some(script) => Some(script@),
                None => None,
            },
            dependencies: dependencies_view(self.dependencies@),
            sender_variable: self.sender_variable@,
            reply_to_variable: self.reply_to_variable@,
        }
    }
}

/// Identifier under which the host keeps the settings of this server.
pub open spec fn server_id() -> Seq<char> {
    "mcp-server-resend"@
}

/// Name of the environment variable that carries the API key.
pub open spec fn api_key_variable() -> Seq<char> {
    "RESEND_API_KEY"@
}

/// Text of the manifest of the `resend-mcp` variant.
pub open spec fn resend_mcp_manifest() -> Seq<char> {
    "{\n  \"name\": \"mcp-resend-server-wrapper\",\n  \"version\": \"1.0.0\",\n  \"type\": \"module\",\n  \"dependencies\": {\n    \"resend-mcp\": \"^0.1.2\"\n  }\n}"@
}

/// The variant that runs the `resend-mcp` package from `node_modules`.
pub open spec fn resend_mcp() -> ServerVariantView {
    ServerVariantView {
        name: "resend-mcp"@,
        server_path: seq!["node_modules"@, "resend-mcp"@, "dist"@, "index.js"@],
        manifest_path: seq!["package.json"@],
        manifest: resend_mcp_manifest(),
        embedded_script: None,
        dependencies: seq![DependencyView { name: "resend-mcp"@, version: "^0.1.2"@ }],
        sender_variable: "SENDER_EMAIL_ADDRESS"@,
        reply_to_variable: "REPLY_TO_EMAIL_ADDRESSES"@,
    }
}

impl ServerVariant {
    /// The variant that runs the `resend-mcp` package from `node_modules`.
    pub fn resend_mcp() -> (variant: ServerVariant)
        ensures
            variant@ == resend_mcp(),
    {
        let mut server_path: Vec<String> = Vec::new();
        server_path.push(String::from_str("node_modules"));
        server_path.push(String::from_str("resend-mcp"));
        server_path.push(String::from_str("dist"));
        server_path.push(String::from_str("index.js"));
        let mut manifest_path: Vec<String> = Vec::new();
        manifest_path.push(String::from_str("package.json"));
        let mut dependencies: Vec<Dependency> = Vec::new();
        dependencies.push(
            Dependency {
                name: String::from_str("resend-mcp"),
                version: String::from_str("^0.1.2"),
            },
        );
        let variant = ServerVariant {
            name: String::from_str("resend-mcp"),
            server_path,
            manifest_path,
            manifest: String::from_str(
                "{\n  \"name\": \"mcp-resend-server-wrapper\",\n  \"version\": \"1.0.0\",\n  \"type\": \"module\",\n  \"dependencies\": {\n    \"resend-mcp\": \"^0.1.2\"\n  }\n}",
            ),
            embedded_script: None,
            dependencies,
            sender_variable: String::from_str("SENDER_EMAIL_ADDRESS"),
            reply_to_variable: String::from_str("REPLY_TO_EMAIL_ADDRESSES"),
        };
        proof {
            assert(variant@.server_path =~= resend_mcp().server_path);
            assert(variant@.manifest_path =~= resend_mcp().manifest_path);
            assert(variant@.dependencies =~= resend_mcp().dependencies);
        }
        variant
    }

    /// Identifier under which the host keeps the settings of this server.
    pub fn server_id() -> (id: String)
        ensures
            id@ == server_id(),
    {
        String::from_str("mcp-server-resend")
    }
}

} // verus!
