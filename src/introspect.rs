use vstd::prelude::*;
use crate::methods::{
    Method, member_name, handled_methods, method_of, lemma_dispatch_complete, INTERFACE_NAME,
    OBJECT_PATH,
};

verus! {

/// The document type declaration that opens the introspection document.
pub const DOCTYPE: &'static str = "<!DOCTYPE node PUBLIC \"-//freedesktop//DTD D-BUS Object Introspection 1.0//EN\"\n \"http://www.freedesktop.org/standards/dbus/1.0/introspect.dtd\">\n";

/// Indentation of the root element.
pub const ROOT_INDENT: &'static str = "";

/// Indentation of the interface element.
pub const INTERFACE_INDENT: &'static str = "  ";

/// Indentation of a method element.
pub const METHOD_INDENT: &'static str = "    ";

/// Indentation of an argument element.
pub const ARG_INDENT: &'static str = "      ";

/// One argument that a method declares: its name, its type signature and
/// whether it goes in or out.
#[derive(Clone, Copy, Debug)]
pub struct ArgDecl {
    pub name: &'static str,
    pub signature: &'static str,
    pub direction: &'static str,
}

/// The name, signature and direction of `a`, as text.
pub open spec fn arg_decl_view(a: ArgDecl) -> (Seq<char>, Seq<char>, Seq<char>) {
    (a.name@, a.signature@, a.direction@)
}

/// The arguments that the document declares for `m`.
pub open spec fn method_arg_decls(m: Method) -> Seq<(Seq<char>, Seq<char>, Seq<char>)> {
    match m {
        Method::GetServerInformation => seq![
            ("name"@, "s"@, "out"@),
            ("vendor"@, "s"@, "out"@),
            ("version"@, "s"@, "out"@),
            ("spec_version"@, "s"@, "out"@),
        ],
        Method::GetCapabilities => seq![("capabilities"@, "as"@, "out"@)],
        Method::Notify => seq![
            ("app_name"@, "s"@, "in"@),
            ("replaces_id"@, "u"@, "in"@),
            ("app_icon"@, "s"@, "in"@),
            ("summary"@, "s"@, "in"@),
            ("body"@, "s"@, "in"@),
            ("actions"@, "as"@, "in"@),
            ("hints"@, "a{sv}"@, "in"@),
            ("expire_timeout"@, "i"@, "in"@),
            ("id"@, "u"@, "out"@),
        ],
        Method::CloseNotification => seq![("id"@, "u"@, "in"@)],
        Method::Introspect => seq![("xml_data"@, "s"@, "out"@)],
    }
}

/// An attribute `name="value"`, with its leading space.
pub open spec fn attribute(name: Seq<char>, value: Seq<char>) -> Seq<char> {
    " "@ + name + "=\""@ + value + "\""@
}

/// An element on lines of its own: start tag with attributes `attrs`,
/// `content`, and the end tag of the same name.
pub open spec fn element(indent: Seq<char>, name: Seq<char>, attrs: Seq<char>, content: Seq<char>) -> Seq<char> {
    indent + "<"@ + name + attrs + ">\n"@ + content + indent + "</"@ + name + ">\n"@
}

/// An element without content, closed in its own tag.
pub open spec fn empty_element(indent: Seq<char>, name: Seq<char>, attrs: Seq<char>) -> Seq<char> {
    indent + "<"@ + name + attrs + "/>\n"@
}

/// The element that declares the argument `a`.
pub open spec fn arg_element(a: (Seq<char>, Seq<char>, Seq<char>)) -> Seq<char> {
    empty_element(
        ARG_INDENT@,
        "arg"@,
        attribute("name"@, a.0) + attribute("type"@, a.1) + attribute("direction"@, a.2),
    )
}

/// The elements that declare each of `args`, in order.
pub open spec fn arg_elements(args: Seq<(Seq<char>, Seq<char>, Seq<char>)>) -> Seq<char>
    decreases args.len(),
{
    if args.len() == 0 {
        Seq::empty()
    } else {
        arg_elements(args.drop_last()) + arg_element(args.last())
    }
}

/// The element that declares `m` and its arguments.
pub open spec fn method_element(m: Method) -> Seq<char> {
    element(
        METHOD_INDENT@,
        "method"@,
        attribute("name"@, member_name(m)),
        arg_elements(method_arg_decls(m)),
    )
}

/// The elements that declare each of `ms`, in order.
pub open spec fn method_elements(ms: Seq<Method>) -> Seq<char>
    decreases ms.len(),
{
    if ms.len() == 0 {
        Seq::empty()
    } else {
        method_elements(ms.drop_last()) + method_element(ms.last())
    }
}

/// The introspection document: the document type, then one `node` element
/// for the object path, holding one `interface` element, holding one method
/// element for each method that the service handles.
pub open spec fn introspection_document() -> Seq<char> {
    DOCTYPE@ + element(
        ROOT_INDENT@,
        "node"@,
        attribute("name"@, OBJECT_PATH@),
        element(
            INTERFACE_INDENT@,
            "interface"@,
            attribute("name"@, INTERFACE_NAME@),
            method_elements(handled_methods()),
        ),
    )
}

/// Text that may stand as a name or an attribute value: not empty, and free
/// of the characters that delimit markup.
pub open spec fn plain_text(s: Seq<char>) -> bool {
    s.len() > 0 && forall|i: int|
        0 <= i < s.len() ==> s[i] != '<' && s[i] != '>' && s[i] != '"' && s[i] != '&'
}

/// The arguments that `m` declares.
pub fn method_args(m: Method) -> (r: Vec<ArgDecl>)
    ensures
        r@.map_values(|a: ArgDecl| arg_decl_view(a)) == method_arg_decls(m),
{
    let r = match m {
        Method::GetServerInformation => vec![
            ArgDecl { name: "name", signature: "s", direction: "out" },
            ArgDecl { name: "vendor", signature: "s", direction: "out" },
            ArgDecl { name: "version", signature: "s", direction: "out" },
            ArgDecl { name: "spec_version", signature: "s", direction: "out" },
        ],
        Method::GetCapabilities => vec![
            ArgDecl { name: "capabilities", signature: "as", direction: "out" },
        ],
        Method::Notify => vec![
            ArgDecl { name: "app_name", signature: "s", direction: "in" },
            ArgDecl { name: "replaces_id", signature: "u", direction: "in" },
            ArgDecl { name: "app_icon", signature: "s", direction: "in" },
            ArgDecl { name: "summary", signature: "s", direction: "in" },
            ArgDecl { name: "body", signature: "s", direction: "in" },
            ArgDecl { name: "actions", signature: "as", direction: "in" },
            ArgDecl { name: "hints", signature: "a{sv}", direction: "in" },
            ArgDecl { name: "expire_timeout", signature: "i", direction: "in" },
            ArgDecl { name: "id", signature: "u", direction: "out" },
        ],
        Method::CloseNotification => vec![ArgDecl { name: "id", signature: "u", direction: "in" }],
        Method::Introspect => vec![
            ArgDecl { name: "xml_data", signature: "s", direction: "out" },
        ],
    };
    assert(r@.map_values(|a: ArgDecl| arg_decl_view(a)) =~= method_arg_decls(m));
    r
}

fn push_attribute(doc: &mut String, name: &str, value: &str)
    ensures
        final(doc)@ == old(doc)@ + attribute(name@, value@),
{
    doc.append(" ");
    doc.append(name);
    doc.append("=\"");
    doc.append(value);
    doc.append("\"");
    assert(doc@ =~= old(doc)@ + attribute(name@, value@));
}

fn push_arg_element(doc: &mut String, a: &ArgDecl)
    ensures
        final(doc)@ == old(doc)@ + arg_element(arg_decl_view(*a)),
{
    doc.append(ARG_INDENT);
    doc.append("<");
    doc.append("arg");
    let ghost before = doc@;
    push_attribute(doc, "name", a.name);
    push_attribute(doc, "type", a.signature);
    push_attribute(doc, "direction", a.direction);
    let ghost attrs = attribute("name"@, a.name@) + attribute("type"@, a.signature@)
        + attribute("direction"@, a.direction@);
    assert(doc@ =~= before + attrs);
    doc.append("/>\n");
    assert(doc@ =~= old(doc)@ + arg_element(arg_decl_view(*a)));
}

fn push_method_element(doc: &mut String, m: Method)
    ensures
        final(doc)@ == old(doc)@ + method_element(m),
{
    let ghost start = old(doc)@;
    doc.append(METHOD_INDENT);
    doc.append("<");
    doc.append("method");
    push_attribute(doc, "name", m.name());
    doc.append(">\n");
    let ghost open = doc@;
    let args = method_args(m);
    let ghost decls = args@.map_values(|a: ArgDecl| arg_decl_view(a));
    let mut i: usize = 0;
    while i < args.len()
        invariant
            i <= args.len(),
            decls == args@.map_values(|a: ArgDecl| arg_decl_view(a)),
            doc@ == open + arg_elements(decls.take(i as int)),
        decreases args.len() - i,
    {
        push_arg_element(doc, &args[i]);
        proof {
            assert(decls.take(i as int + 1).drop_last() =~= decls.take(i as int));
            assert(decls.take(i as int + 1).last() == arg_decl_view(args@[i as int]));
            assert(doc@ =~= open + arg_elements(decls.take(i as int + 1)));
        }
        i = i + 1;
    }
    assert(decls.take(args.len() as int) =~= decls);
    doc.append(METHOD_INDENT);
    doc.append("</");
    doc.append("method");
    doc.append(">\n");
    assert(doc@ =~= start + method_element(m));
}

/// The introspection document of the service.
#[verifier::rlimit(60)]
pub fn introspection_xml() -> (r: String)
    ensures
        r@ == introspection_document(),
{
    let mut doc = String::from_str(DOCTYPE);
    let ghost node_attr = attribute("name"@, OBJECT_PATH@);
    let ghost node_start = ROOT_INDENT@ + "<"@ + "node"@ + node_attr + ">\n"@;
    doc.append(ROOT_INDENT);
    doc.append("<");
    doc.append("node");
    push_attribute(&mut doc, "name", OBJECT_PATH);
    doc.append(">\n");
    assert(doc@ =~= DOCTYPE@ + node_start);
    let ghost iface_attr = attribute("name"@, INTERFACE_NAME@);
    let ghost iface_start = INTERFACE_INDENT@ + "<"@ + "interface"@ + iface_attr + ">\n"@;
    let ghost before_iface = doc@;
    doc.append(INTERFACE_INDENT);
    doc.append("<");
    doc.append("interface");
    push_attribute(&mut doc, "name", INTERFACE_NAME);
    doc.append(">\n");
    assert(doc@ =~= before_iface + iface_start);
    let ghost open = doc@;
    let all = Method::all();
    let mut i: usize = 0;
    while i < all.len()
        invariant
            all@ == handled_methods(),
            i <= all.len(),
            doc@ == open + method_elements(all@.take(i as int)),
        decreases all.len() - i,
    {
        let m = all[i];
        push_method_element(&mut doc, m);
        proof {
            assert(all@.take(i as int + 1).drop_last() =~= all@.take(i as int));
            assert(all@.take(i as int + 1).last() == m);
            assert(doc@ =~= open + method_elements(all@.take(i as int + 1)));
        }
        i = i + 1;
    }
    assert(all@.take(all.len() as int) =~= all@);
    let ghost methods = method_elements(handled_methods());
    let ghost iface_end = INTERFACE_INDENT@ + "</"@ + "interface"@ + ">\n"@;
    let ghost node_end = ROOT_INDENT@ + "</"@ + "node"@ + ">\n"@;
    doc.append(INTERFACE_INDENT);
    doc.append("</");
    doc.append("interface");
    doc.append(">\n");
    assert(doc@ =~= open + methods + iface_end);
    let ghost before_end = doc@;
    doc.append(ROOT_INDENT);
    doc.append("</");
    doc.append("node");
    doc.append(">\n");
    assert(doc@ =~= before_end + node_end);
    proof {
        let inner = element(INTERFACE_INDENT@, "interface"@, iface_attr, methods);
        assert(inner =~= iface_start + methods + iface_end);
        assert(element(ROOT_INDENT@, "node"@, node_attr, inner) =~= node_start + inner + node_end);
        assert(doc@ =~= DOCTYPE@ + (node_start + inner + node_end));
    }
    doc
}

/// The introspection document declares exactly the methods that dispatch
/// routes: it is built from one element per entry of `handled_methods()`,
/// each method appears there once, and a member name is routed by dispatch
/// exactly when it is the name of one of those entries.
pub proof fn lemma_introspection_matches_dispatch(s: Seq<char>)
    ensures
        handled_methods().no_duplicates(),
        forall|m: Method| #[trigger] handled_methods().contains(m),
        method_of(s) is Some <==> exists|i: int|
            0 <= i < handled_methods().len() && #[trigger] member_name(handled_methods()[i]) == s,
{
    let all = handled_methods();
    assert forall|m: Method| #[trigger] all.contains(m) by {
        lemma_dispatch_complete(m, s);
    }
    lemma_dispatch_complete(Method::Notify, s);
    if method_of(s) is Some {
        let k = method_of(s).unwrap();
        lemma_dispatch_complete(k, s);
        let i = choose|i: int| 0 <= i < all.len() && all[i] == k;
        assert(member_name(all[i]) == s);
    }
    if exists|i: int| 0 <= i < all.len() && #[trigger] member_name(all[i]) == s {
        let i = choose|i: int| 0 <= i < all.len() && #[trigger] member_name(all[i]) == s;
        lemma_dispatch_complete(all[i], s);
    }
}

/// The introspection document is well-formed XML: it is the document type
/// followed by the single root element `node`, and it is built from
/// `element`, `empty_element` and `attribute` alone, which close every
/// element with an end tag of its own name (or in its own tag) and quote
/// every attribute value. This lemma adds that every element name, attribute
/// name and attribute value used is non-empty and free of `<`, `>`, `"` and
/// `&`, so none of them can break that structure.
pub proof fn lemma_introspection_well_formed()
    ensures
        plain_text("node"@),
        plain_text("interface"@),
        plain_text("method"@),
        plain_text("arg"@),
        plain_text("name"@),
        plain_text("type"@),
        plain_text("direction"@),
        plain_text(OBJECT_PATH@),
        plain_text(INTERFACE_NAME@),
        forall|m: Method| plain_text(#[trigger] member_name(m)),
        forall|m: Method, i: int|
            0 <= i < method_arg_decls(m).len() ==> {
                let a = #[trigger] method_arg_decls(m)[i];
                plain_text(a.0) && plain_text(a.1) && plain_text(a.2)
            },
{
    reveal_strlit("name");
    reveal_strlit("vendor");
    reveal_strlit("version");
    reveal_strlit("spec_version");
    reveal_strlit("capabilities");
    reveal_strlit("app_name");
    reveal_strlit("replaces_id");
    reveal_strlit("app_icon");
    reveal_strlit("summary");
    reveal_strlit("body");
    reveal_strlit("actions");
    reveal_strlit("hints");
    reveal_strlit("expire_timeout");
    reveal_strlit("id");
    reveal_strlit("xml_data");
    reveal_strlit("s");
    reveal_strlit("as");
    reveal_strlit("u");
    reveal_strlit("a{sv}");
    reveal_strlit("i");
    reveal_strlit("in");
    reveal_strlit("out");
    reveal_strlit("node");
    reveal_strlit("interface");
    reveal_strlit("method");
    reveal_strlit("arg");
    reveal_strlit("type");
    reveal_strlit("direction");
    reveal_strlit("/org/freedesktop/Notifications");
    reveal_strlit("org.freedesktop.Notifications");
    reveal_strlit("GetServerInformation");
    reveal_strlit("GetCapabilities");
    reveal_strlit("Notify");
    reveal_strlit("CloseNotification");
    reveal_strlit("Introspect");
}

} // verus!
