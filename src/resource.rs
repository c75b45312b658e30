use vstd::prelude::*;

verus! {

/// Identity of a desired-state object; its children carry the same one.
#[derive(Debug, Clone, PartialEq, Eq)]
pub struct ObjectKey {
    pub name: String,
    pub namespace: String,
}

impl View for ObjectKey {
    type V = (Seq<char>, Seq<char>);

    open spec fn view(&self) -> (Seq<char>, Seq<char>) {
        (self.name@, self.namespace@)
    }
}

impl ObjectKey {
    pub fn new(name: &str, namespace: &str) -> (r: ObjectKey)
        ensures
            r@ == (name@, namespace@),
    {
        ObjectKey { name: name.to_owned(), namespace: namespace.to_owned() }
    }

    pub fn duplicate(&self) -> (r: ObjectKey)
        ensures
            r@ == self@,
    {
        ObjectKey { name: self.name.clone(), namespace: self.namespace.clone() }
    }

    pub fn same(&self, other: &ObjectKey) -> (r: bool)
        ensures
            r == (self@ == other@),
    {
        self.name == other.name && self.namespace == other.namespace
    }
}

/// The label key that ties a deployment, its pods and its service together.
pub open spec fn app_label_key() -> Seq<char> {
    seq!['t', 'e', 's', 't', '.', 'c', 'o', 'm', '/', 'a', 'p', 'p']
}

/// The service type of every child service.
pub open spec fn node_port() -> Seq<char> {
    seq!['N', 'o', 'd', 'e', 'P', 'o', 'r', 't']
}

/// The argument handed to the echo server: `--text="<text>"`.
pub open spec fn text_arg(text: Seq<char>) -> Seq<char> {
    seq!['-', '-', 't', 'e', 'x', 't', '=', '"'] + text + seq!['"']
}

/// Builds the argument `--text="<text>"`.
pub fn make_text_arg(text: &str) -> (r: String)
    ensures
        r@ == text_arg(text@),
{
    let mut r = String::from_str("--text=\"");
    r.append(text);
    r.append("\"");
    proof {
        reveal_strlit("--text=\"");
        reveal_strlit("\"");
    }
    r
}

/// Returns the label key `test.com/app`.
pub fn make_app_label_key() -> (r: String)
    ensures
        r@ == app_label_key(),
{
    proof {
        reveal_strlit("test.com/app");
    }
    String::from_str("test.com/app")
}

/// Returns the service type `NodePort`.
pub fn make_node_port() -> (r: String)
    ensures
        r@ == node_port(),
{
    proof {
        reveal_strlit("NodePort");
    }
    let r = String::from_str("NodePort");
    assert(r@ =~= node_port());
    r
}

/// The child workload: one container per pod, running `image` on `port`.
/// Deployment, selector and pod template all carry the label
/// `label_key = label_value`; the container's only argument is `text_arg`.
#[derive(Debug, Clone, PartialEq, Eq)]
pub struct DeploymentResource {
    pub name: String,
    pub namespace: String,
    pub replicas: i32,
    pub image: String,
    pub port: i32,
    pub text_arg: String,
    pub label_key: String,
    pub label_value: String,
}

pub struct DeploymentView {
    pub name: Seq<char>,
    pub namespace: Seq<char>,
    pub replicas: i32,
    pub image: Seq<char>,
    pub port: i32,
    pub text_arg: Seq<char>,
    pub label_key: Seq<char>,
    pub label_value: Seq<char>,
}

impl View for DeploymentResource {
    type V = DeploymentView;

    open spec fn view(&self) -> DeploymentView {
        DeploymentView {
            name: self.name@,
            namespace: self.namespace@,
            replicas: self.replicas,
            image: self.image@,
            port: self.port,
            text_arg: self.text_arg@,
            label_key: self.label_key@,
            label_value: self.label_value@,
        }
    }
}

/// The deployment that an object `name`/`namespace` with the given spec owns.
pub open spec fn desired_deployment(
    image: Seq<char>,
    port: i32,
    name: Seq<char>,
    replicas: i32,
    text: Seq<char>,
    namespace: Seq<char>,
) -> DeploymentView {
    DeploymentView {
        name,
        namespace,
        replicas,
        image,
        port,
        text_arg: text_arg(text),
        label_key: app_label_key(),
        label_value: name,
    }
}

impl DeploymentResource {
    /// Derives the deployment from the owner's identity and spec.
    pub fn derive(
        image: &str,
        port: i32,
        name: &str,
        replicas: i32,
        text: &str,
        namespace: &str,
    ) -> (r: DeploymentResource)
        ensures
            r@ == desired_deployment(image@, port, name@, replicas, text@, namespace@),
    {
        DeploymentResource {
            name: name.to_owned(),
            namespace: namespace.to_owned(),
            replicas,
            image: image.to_owned(),
            port,
            text_arg: make_text_arg(text),
            label_key: make_app_label_key(),
            label_value: name.to_owned(),
        }
    }

    pub fn duplicate(&self) -> (r: DeploymentResource)
        ensures
            r@ == self@,
    {
        DeploymentResource {
            name: self.name.clone(),
            namespace: self.namespace.clone(),
            replicas: self.replicas,
            image: self.image.clone(),
            port: self.port,
            text_arg: self.text_arg.clone(),
            label_key: self.label_key.clone(),
            label_value: self.label_value.clone(),
        }
    }
}

/// The child endpoint: a service of type `service_type` that selects the pods
/// labelled `selector_key = selector_value` and forwards `port` to `target_port`.
#[derive(Debug, Clone, PartialEq, Eq)]
pub struct ServiceResource {
    pub name: String,
    pub namespace: String,
    pub service_type: String,
    pub port: i32,
    pub target_port: i32,
    pub selector_key: String,
    pub selector_value: String,
}

pub struct ServiceView {
    pub name: Seq<char>,
    pub namespace: Seq<char>,
    pub service_type: Seq<char>,
    pub port: i32,
    pub target_port: i32,
    pub selector_key: Seq<char>,
    pub selector_value: Seq<char>,
}

impl View for ServiceResource {
    type V = ServiceView;

    open spec fn view(&self) -> ServiceView {
        ServiceView {
            name: self.name@,
            namespace: self.namespace@,
            service_type: self.service_type@,
            port: self.port,
            target_port: self.target_port,
            selector_key: self.selector_key@,
            selector_value: self.selector_value@,
        }
    }
}

/// The service that an object `name`/`namespace` owns.
pub open spec fn desired_service(name: Seq<char>, port: i32, namespace: Seq<char>) -> ServiceView {
    ServiceView {
        name,
        namespace,
        service_type: node_port(),
        port,
        target_port: port,
        selector_key: app_label_key(),
        selector_value: name,
    }
}

impl ServiceResource {
    /// Derives the service from the owner's identity and the container port.
    pub fn derive(name: &str, port: i32, namespace: &str) -> (r: ServiceResource)
        ensures
            r@ == desired_service(name@, port, namespace@),
    {
        ServiceResource {
            name: name.to_owned(),
            namespace: namespace.to_owned(),
            service_type: make_node_port(),
            port,
            target_port: port,
            selector_key: make_app_label_key(),
            selector_value: name.to_owned(),
        }
    }

    pub fn duplicate(&self) -> (r: ServiceResource)
        ensures
            r@ == self@,
    {
        ServiceResource {
            name: self.name.clone(),
            namespace: self.namespace.clone(),
            service_type: self.service_type.clone(),
            port: self.port,
            target_port: self.target_port,
            selector_key: self.selector_key.clone(),
            selector_value: self.selector_value.clone(),
        }
    }
}

} // verus!
