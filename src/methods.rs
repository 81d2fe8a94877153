use vstd::prelude::*;

verus! {

/// The well-known bus name of the notification service.
pub const SERVICE_NAME: &'static str = "org.freedesktop.Notifications";

/// The object path at which the service answers.
pub const OBJECT_PATH: &'static str = "/org/freedesktop/Notifications";

/// The interface that the service implements.
pub const INTERFACE_NAME: &'static str = "org.freedesktop.Notifications";

/// The methods that the service answers.
#[derive(Clone, Copy, Debug, PartialEq, Eq, Structural)]
pub enum Method {
    GetServerInformation,
    GetCapabilities,
    Notify,
    CloseNotification,
    Introspect,
}

/// The member name under which `m` is called on the bus.
pub open spec fn member_name(m: Method) -> Seq<char> {
    match m {
        Method::GetServerInformation => "GetServerInformation"@,
        Method::GetCapabilities => "GetCapabilities"@,
        Method::Notify => "Notify"@,
        Method::CloseNotification => "CloseNotification"@,
        Method::Introspect => "Introspect"@,
    }
}

/// The method that a call of member `s` is routed to: an exact,
/// case-sensitive match against the member names, `None` for any other name.
pub open spec fn method_of(s: Seq<char>) -> Option<Method> {
    if s == member_name(Method::GetServerInformation) {
        Some(Method::GetServerInformation)
    } else if s == member_name(Method::GetCapabilities) {
        Some(Method::GetCapabilities)
    } else if s == member_name(Method::Notify) {
        Some(Method::Notify)
    } else if s == member_name(Method::CloseNotification) {
        Some(Method::CloseNotification)
    } else if s == member_name(Method::Introspect) {
        Some(Method::Introspect)
    } else {
        None
    }
}

/// Every method of the service, in the order in which they are declared.
pub open spec fn handled_methods() -> Seq<Method> {
    seq![
        Method::GetServerInformation,
        Method::GetCapabilities,
        Method::Notify,
        Method::CloseNotification,
        Method::Introspect,
    ]
}

/// Whether two texts hold the same characters.
pub fn same_text(a: &str, b: &str) -> (r: bool)
    ensures
        r == (a@ == b@),
{
    let n = a.unicode_len();
    if n != b.unicode_len() {
        return false;
    }
    let mut i: usize = 0;
    while i < n
        invariant
            n == a@.len(),
            n == b@.len(),
            i <= n,
            forall|j: int| 0 <= j < i ==> a@[j] == b@[j],
        decreases n - i,
    {
        if a.get_char(i) != b.get_char(i) {
            return false;
        }
        i = i + 1;
    }
    assert(a@ =~= b@);
    true
}

impl Method {
    /// The member name of this method.
    pub fn name(&self) -> (r: &'static str)
        ensures
            r@ == member_name(*self),
    {
        match self {
            Method::GetServerInformation => "GetServerInformation",
            Method::GetCapabilities => "GetCapabilities",
            Method::Notify => "Notify",
            Method::CloseNotification => "CloseNotification",
            Method::Introspect => "Introspect",
        }
    }

    /// Every method of the service.
    pub fn all() -> (r: Vec<Method>)
        ensures
            r@ == handled_methods(),
    {
        let r = vec![
            Method::GetServerInformation,
            Method::GetCapabilities,
            Method::Notify,
            Method::CloseNotification,
            Method::Introspect,
        ];
        assert(r@ =~= handled_methods());
        r
    }

    /// Routes a member name to its method; `None` for a name the service does
    /// not define.
    pub fn from_member(member: &str) -> (r: Option<Method>)
        ensures
            r == method_of(member@),
    {
        let all = Method::all();
        let mut i: usize = 0;
        while i < all.len()
            invariant
                all@ == handled_methods(),
                i <= all.len(),
                forall|j: int| 0 <= j < i ==> member@ != member_name(#[trigger] all@[j]),
            decreases all.len() - i,
        {
            let m = all[i];
            if same_text(member, m.name()) {
                proof {
                    lemma_names_distinct();
                }
                return Some(m);
            }
            i = i + 1;
        }
        assert(member@ != member_name(all@[0]));
        assert(member@ != member_name(all@[1]));
        assert(member@ != member_name(all@[2]));
        assert(member@ != member_name(all@[3]));
        assert(member@ != member_name(all@[4]));
        None
    }
}

/// The five member names are pairwise different.
pub proof fn lemma_names_distinct()
    ensures
        forall|a: Method, b: Method| member_name(a) == member_name(b) ==> a == b,
{
    reveal_strlit("GetServerInformation");
    reveal_strlit("GetCapabilities");
    reveal_strlit("Notify");
    reveal_strlit("CloseNotification");
    reveal_strlit("Introspect");
    assert forall|a: Method, b: Method| member_name(a) == member_name(b) implies a == b by {
        if a != b {
            assert(member_name(a).len() != member_name(b).len());
        }
    }
}

/// Dispatch is complete and exact: the member name of each method routes to
/// that method and to no other, every method is among those the service
/// declares, and any name that is no method's member name routes nowhere.
pub proof fn lemma_dispatch_complete(m: Method, s: Seq<char>)
    ensures
        method_of(member_name(m)) == Some(m),
        handled_methods().contains(m),
        method_of(s) is Some <==> exists|k: Method| member_name(k) == s,
        method_of(s) matches Some(k) ==> member_name(k) == s,
{
    lemma_names_distinct();
    let all = handled_methods();
    let i: int = match m {
        Method::GetServerInformation => 0,
        Method::GetCapabilities => 1,
        Method::Notify => 2,
        Method::CloseNotification => 3,
        Method::Introspect => 4,
    };
    assert(all[i] == m);
    if exists|k: Method| member_name(k) == s {
        let k = choose|k: Method| member_name(k) == s;
        assert(method_of(member_name(k)) is Some);
    }
}

} // verus!
