//! The capability registry: maps supported command prefixes to capabilities.
//!
//! It is the first boundary of the command runtime: a command that matches no
//! capability never reaches approval or the sandbox.

use vstd::prelude::*;
use crate::model::approval::{NetworkPolicy, SandboxProfile};
use crate::model::capability::{
    CapabilityDescriptor, CapabilityDescriptorModel, CapabilityKind, CapabilityPolicy,
    DefaultDecision, RetryPolicy,
};
use crate::text::clone_strings;
use crate::util::{args_has_prefix, has_prefix};

verus! {

/// The capability registry.
pub struct CapabilityRegistry {
    /// Built-in capabilities.
    builtin_capabilities: Vec<CapabilityDescriptor>,
    /// Registered capabilities.
    capabilities: Vec<CapabilityDescriptor>,
}

/// A capability that matched a command, with the prefix that matched; the
/// prefix is what an approval scope is later built from.
pub struct MatchedCapability {
    /// The capability.
    pub capability: CapabilityDescriptor,
    /// The matching command prefix.
    pub command_prefix: Vec<String>,
}

/// The mathematical value of a [`CapabilityRegistry`].
pub struct CapabilityRegistryModel {
    pub builtin: Seq<CapabilityDescriptorModel>,
    pub registered: Seq<CapabilityDescriptorModel>,
}

/// The mathematical value of a [`MatchedCapability`].
pub struct MatchedCapabilityModel {
    pub capability: CapabilityDescriptorModel,
    pub command_prefix: Seq<Seq<char>>,
}

impl View for CapabilityRegistry {
    type V = CapabilityRegistryModel;

    closed spec fn view(&self) -> CapabilityRegistryModel {
        CapabilityRegistryModel {
            builtin: self.builtin_capabilities@.map_values(|c: CapabilityDescriptor| c@),
            registered: self.capabilities@.map_values(|c: CapabilityDescriptor| c@),
        }
    }
}

impl View for MatchedCapability {
    type V = MatchedCapabilityModel;

    open spec fn view(&self) -> MatchedCapabilityModel {
        MatchedCapabilityModel {
            capability: self.capability@,
            command_prefix: self.command_prefix.deep_view(),
        }
    }
}

impl CapabilityRegistryModel {
    /// Every capability, built-in ones first, in registration order.
    pub open spec fn all(self) -> Seq<CapabilityDescriptorModel> {
        self.builtin + self.registered
    }
}

/// The first prefix in `prefixes` that `argv` starts with.
pub open spec fn first_matching_prefix(
    prefixes: Seq<Seq<Seq<char>>>,
    argv: Seq<Seq<char>>,
) -> Option<Seq<Seq<char>>>
    decreases prefixes.len(),
{
    if prefixes.len() == 0 {
        None
    } else if has_prefix(argv, prefixes[0]) {
        Some(prefixes[0])
    } else {
        first_matching_prefix(prefixes.drop_first(), argv)
    }
}

/// The first capability, in order, one of whose prefixes `argv` starts with,
/// together with the first such prefix.
pub open spec fn first_match(
    caps: Seq<CapabilityDescriptorModel>,
    argv: Seq<Seq<char>>,
) -> Option<MatchedCapabilityModel>
    decreases caps.len(),
{
    if caps.len() == 0 {
        None
    } else {
        match first_matching_prefix(caps[0].command_prefixes, argv) {
            Some(p) => Some(MatchedCapabilityModel { capability: caps[0], command_prefix: p }),
            None => first_match(caps.drop_first(), argv),
        }
    }
}

/// The capability model with the given fields.
pub open spec fn descriptor(
    kind: CapabilityKind,
    name: Seq<char>,
    description: Seq<char>,
    command_prefixes: Seq<Seq<Seq<char>>>,
    default_decision: DefaultDecision,
    first_attempt_sandbox: SandboxProfile,
    network_policy: NetworkPolicy,
    retry_policy: RetryPolicy,
) -> CapabilityDescriptorModel {
    CapabilityDescriptorModel {
        kind,
        name,
        description,
        command_prefixes,
        policy: CapabilityPolicy {
            default_decision,
            first_attempt_sandbox,
            network_policy,
            retry_policy,
        },
    }
}

/// The built-in capabilities.
pub open spec fn builtin_capabilities() -> Seq<CapabilityDescriptorModel> {
    seq![
        descriptor(
            CapabilityKind::SafeRead,
            "safe-read"@,
            "Safe read command"@,
            seq![seq!["ls"@], seq!["cat"@]],
            DefaultDecision::Allow,
            SandboxProfile::ReadOnly,
            NetworkPolicy::Deny,
            RetryPolicy::Never,
        ),
        descriptor(
            CapabilityKind::SafeTest,
            "safe-test"@,
            "Safe test command"@,
            seq![seq!["npm"@, "test"@]],
            DefaultDecision::Allow,
            SandboxProfile::WorkspaceWrite,
            NetworkPolicy::Deny,
            RetryPolicy::WithApproval,
        ),
        descriptor(
            CapabilityKind::NetworkInstall,
            "network-install"@,
            "Network install command"@,
            seq![seq!["npm"@, "install"@]],
            DefaultDecision::Prompt,
            SandboxProfile::WorkspaceWrite,
            NetworkPolicy::Prompt,
            RetryPolicy::WithApproval,
        ),
        descriptor(
            CapabilityKind::DangerousShell,
            "dangerous-shell"@,
            "Dangerous shell command"@,
            seq![seq!["curl"@, "|"@, "sh"@]],
            DefaultDecision::Forbidden,
            SandboxProfile::ReadOnly,
            NetworkPolicy::Deny,
            RetryPolicy::Never,
        ),
    ]
}

/// A one-word argument list.
pub(crate) fn words1(a: &str) -> (r: Vec<String>)
    ensures
        r.deep_view() == seq![a@],
{
    let mut r: Vec<String> = Vec::new();
    r.push(a.to_string());
    assert(r.deep_view() =~= seq![a@]);
    r
}

/// A two-word argument list.
pub(crate) fn words2(a: &str, b: &str) -> (r: Vec<String>)
    ensures
        r.deep_view() == seq![a@, b@],
{
    let mut r: Vec<String> = Vec::new();
    r.push(a.to_string());
    r.push(b.to_string());
    assert(r.deep_view() =~= seq![a@, b@]);
    r
}

/// A three-word argument list.
pub(crate) fn words3(a: &str, b: &str, c: &str) -> (r: Vec<String>)
    ensures
        r.deep_view() == seq![a@, b@, c@],
{
    let mut r: Vec<String> = Vec::new();
    r.push(a.to_string());
    r.push(b.to_string());
    r.push(c.to_string());
    assert(r.deep_view() =~= seq![a@, b@, c@]);
    r
}

/// A four-word argument list.
pub(crate) fn words4(a: &str, b: &str, c: &str, d: &str) -> (r: Vec<String>)
    ensures
        r.deep_view() == seq![a@, b@, c@, d@],
{
    let mut r: Vec<String> = Vec::new();
    r.push(a.to_string());
    r.push(b.to_string());
    r.push(c.to_string());
    r.push(d.to_string());
    assert(r.deep_view() =~= seq![a@, b@, c@, d@]);
    r
}

fn make_descriptor(
    kind: CapabilityKind,
    name: &str,
    description: &str,
    command_prefixes: Vec<Vec<String>>,
    policy: CapabilityPolicy,
) -> (r: CapabilityDescriptor)
    ensures
        r@ == (CapabilityDescriptorModel {
            kind,
            name: name@,
            description: description@,
            command_prefixes: command_prefixes.deep_view(),
            policy,
        }),
{
    CapabilityDescriptor {
        kind,
        name: name.to_string(),
        description: description.to_string(),
        command_prefixes,
        policy,
    }
}

impl CapabilityRegistry {
    /// A registry holding the built-in capabilities and nothing registered.
    pub fn new() -> (r: Self)
        ensures
            r@.builtin == builtin_capabilities(),
            r@.registered == Seq::<CapabilityDescriptorModel>::empty(),
    {
        let mut builtin: Vec<CapabilityDescriptor> = Vec::new();

        let mut read_prefixes: Vec<Vec<String>> = Vec::new();
        read_prefixes.push(words1("ls"));
        read_prefixes.push(words1("cat"));
        assert(read_prefixes.deep_view() =~= seq![seq!["ls"@], seq!["cat"@]]);
        builtin.push(
            make_descriptor(
                CapabilityKind::SafeRead,
                "safe-read",
                "Safe read command",
                read_prefixes,
                CapabilityPolicy {
                    default_decision: DefaultDecision::Allow,
                    first_attempt_sandbox: SandboxProfile::ReadOnly,
                    network_policy: NetworkPolicy::Deny,
                    retry_policy: RetryPolicy::Never,
                },
            ),
        );

        let mut test_prefixes: Vec<Vec<String>> = Vec::new();
        test_prefixes.push(words2("npm", "test"));
        assert(test_prefixes.deep_view() =~= seq![seq!["npm"@, "test"@]]);
        builtin.push(
            make_descriptor(
                CapabilityKind::SafeTest,
                "safe-test",
                "Safe test command",
                test_prefixes,
                CapabilityPolicy {
                    default_decision: DefaultDecision::Allow,
                    first_attempt_sandbox: SandboxProfile::WorkspaceWrite,
                    network_policy: NetworkPolicy::Deny,
                    retry_policy: RetryPolicy::WithApproval,
                },
            ),
        );

        let mut install_prefixes: Vec<Vec<String>> = Vec::new();
        install_prefixes.push(words2("npm", "install"));
        assert(install_prefixes.deep_view() =~= seq![seq!["npm"@, "install"@]]);
        builtin.push(
            make_descriptor(
                CapabilityKind::NetworkInstall,
                "network-install",
                "Network install command",
                install_prefixes,
                CapabilityPolicy {
                    default_decision: DefaultDecision::Prompt,
                    first_attempt_sandbox: SandboxProfile::WorkspaceWrite,
                    network_policy: NetworkPolicy::Prompt,
                    retry_policy: RetryPolicy::WithApproval,
                },
            ),
        );

        let mut shell_prefixes: Vec<Vec<String>> = Vec::new();
        shell_prefixes.push(words3("curl", "|", "sh"));
        assert(shell_prefixes.deep_view() =~= seq![seq!["curl"@, "|"@, "sh"@]]);
        builtin.push(
            make_descriptor(
                CapabilityKind::DangerousShell,
                "dangerous-shell",
                "Dangerous shell command",
                shell_prefixes,
                CapabilityPolicy {
                    default_decision: DefaultDecision::Forbidden,
                    first_attempt_sandbox: SandboxProfile::ReadOnly,
                    network_policy: NetworkPolicy::Deny,
                    retry_policy: RetryPolicy::Never,
                },
            ),
        );

        let r = CapabilityRegistry { builtin_capabilities: builtin, capabilities: Vec::new() };
        assert(r@.builtin =~= builtin_capabilities()) by {
            assert(r@.builtin.len() == 4);
            assert(r@.builtin[0] == builtin_capabilities()[0]);
            assert(r@.builtin[1] == builtin_capabilities()[1]);
            assert(r@.builtin[2] == builtin_capabilities()[2]);
            assert(r@.builtin[3] == builtin_capabilities()[3]);
        }
        assert(r@.registered =~= Seq::<CapabilityDescriptorModel>::empty());
        r
    }

    /// Registers a capability after all existing ones.
    pub fn register(&mut self, capability: CapabilityDescriptor)
        ensures
            final(self)@.builtin == old(self)@.builtin,
            final(self)@.registered == old(self)@.registered.push(capability@),
    {
        self.capabilities.push(capability);
        assert(self@.registered =~= old(self)@.registered.push(capability@));
    }

    /// The built-in capabilities.
    pub fn load_builtin_capabilities(&self) -> (r: Vec<CapabilityDescriptor>)
        ensures
            r@.map_values(|c: CapabilityDescriptor| c@) == self@.builtin,
    {
        copy_descriptors(&self.builtin_capabilities)
    }

    /// Every capability: the built-in ones, then the registered ones.
    pub fn all_capabilities(&self) -> (r: Vec<CapabilityDescriptor>)
        ensures
            r@.map_values(|c: CapabilityDescriptor| c@) == self@.all(),
    {
        let mut r = copy_descriptors(&self.builtin_capabilities);
        let mut more = copy_descriptors(&self.capabilities);
        let ghost a = r@;
        let ghost b = more@;
        r.append(&mut more);
        assert(r@.map_values(|c: CapabilityDescriptor| c@) =~= self@.all()) by {
            assert(r@ == a + b);
        }
        r
    }

    /// The capability matching `argv`: the first capability, built-in ones
    /// first, with a prefix that `argv` starts with, and the first such prefix.
    ///
    /// Only one command is matched; a command made of several segments would
    /// have each segment matched separately.
    pub fn match_capability(&self, argv: &[String]) -> (r: Option<MatchedCapability>)
        ensures
            match r {
                Some(m) => first_match(self@.all(), argv.deep_view()) == Some(m@),
                None => first_match(self@.all(), argv.deep_view()) is None,
            },
    {
        proof {
            lemma_first_match_append(self@.builtin, self@.registered, argv.deep_view());
        }
        match find_in(&self.builtin_capabilities, argv) {
            Some(m) => Some(m),
            None => find_in(&self.capabilities, argv),
        }
    }
}

/// A copy of a list of descriptors.
fn copy_descriptors(v: &Vec<CapabilityDescriptor>) -> (r: Vec<CapabilityDescriptor>)
    ensures
        r@.map_values(|c: CapabilityDescriptor| c@) == v@.map_values(|c: CapabilityDescriptor| c@),
{
    let mut r: Vec<CapabilityDescriptor> = Vec::new();
    let mut i: usize = 0;
    while i < v.len()
        invariant
            i <= v.len(),
            r@.map_values(|c: CapabilityDescriptor| c@) =~= v@.map_values(
                |c: CapabilityDescriptor| c@,
            ).take(i as int),
        decreases v.len() - i,
    {
        let ghost before = r@;
        let d = v[i].duplicate();
        r.push(d);
        proof {
            assert(r@.map_values(|c: CapabilityDescriptor| c@) =~= before.map_values(
                |c: CapabilityDescriptor| c@,
            ).push(d@));
            assert(v@.map_values(|c: CapabilityDescriptor| c@).take(i + 1) =~= v@.map_values(
                |c: CapabilityDescriptor| c@,
            ).take(i as int).push(v@[i as int]@));
        }
        i = i + 1;
    }
    assert(v@.map_values(|c: CapabilityDescriptor| c@).take(v.len() as int) =~= v@.map_values(
        |c: CapabilityDescriptor| c@,
    ));
    r
}

/// The first matching prefix of one capability.
fn find_prefix(prefixes: &Vec<Vec<String>>, argv: &[String]) -> (r: Option<Vec<String>>)
    ensures
        match r {
            Some(p) => first_matching_prefix(prefixes.deep_view(), argv.deep_view()) == Some(
                p.deep_view(),
            ),
            None => first_matching_prefix(prefixes.deep_view(), argv.deep_view()) is None,
        },
{
    let ghost ps = prefixes.deep_view();
    let ghost a = argv.deep_view();
    let mut j: usize = 0;
    assert(ps.skip(0) =~= ps);
    while j < prefixes.len()
        invariant
            j <= prefixes.len(),
            ps == prefixes.deep_view(),
            a == argv.deep_view(),
            first_matching_prefix(ps, a) == first_matching_prefix(ps.skip(j as int), a),
        decreases prefixes.len() - j,
    {
        proof {
            assert(ps.skip(j as int)[0] == ps[j as int]);
            assert(ps.skip(j as int).drop_first() =~= ps.skip(j + 1));
        }
        if args_has_prefix(argv, prefixes[j].as_slice()) {
            return Some(clone_strings(&prefixes[j]));
        }
        j = j + 1;
    }
    assert(ps.skip(j as int).len() == 0);
    None
}

/// The first match among a list of capabilities.
fn find_in(caps: &Vec<CapabilityDescriptor>, argv: &[String]) -> (r: Option<MatchedCapability>)
    ensures
        match r {
            Some(m) => first_match(caps@.map_values(|c: CapabilityDescriptor| c@), argv.deep_view())
                == Some(m@),
            None => first_match(caps@.map_values(|c: CapabilityDescriptor| c@), argv.deep_view())
                is None,
        },
{
    let ghost cs = caps@.map_values(|c: CapabilityDescriptor| c@);
    let ghost a = argv.deep_view();
    let mut i: usize = 0;
    assert(cs.skip(0) =~= cs);
    while i < caps.len()
        invariant
            i <= caps.len(),
            cs == caps@.map_values(|c: CapabilityDescriptor| c@),
            a == argv.deep_view(),
            first_match(cs, a) == first_match(cs.skip(i as int), a),
        decreases caps.len() - i,
    {
        proof {
            assert(cs.skip(i as int)[0] == caps@[i as int]@);
            assert(cs.skip(i as int).drop_first() =~= cs.skip(i + 1));
        }
        match find_prefix(&caps[i].command_prefixes, argv) {
            Some(p) => {
                return Some(MatchedCapability { capability: caps[i].duplicate(), command_prefix: p });
            },
            None => {},
        }
        i = i + 1;
    }
    assert(cs.skip(i as int).len() == 0);
    None
}

/// Searching a concatenation searches the first part, then the second.
pub proof fn lemma_first_match_append(
    a: Seq<CapabilityDescriptorModel>,
    b: Seq<CapabilityDescriptorModel>,
    argv: Seq<Seq<char>>,
)
    ensures
        first_match(a + b, argv) == (match first_match(a, argv) {
            Some(m) => Some(m),
            None => first_match(b, argv),
        }),
    decreases a.len(),
{
    if a.len() == 0 {
        assert(a + b =~= b);
    } else {
        assert((a + b)[0] == a[0]);
        assert((a + b).drop_first() =~= a.drop_first() + b);
        lemma_first_match_append(a.drop_first(), b, argv);
    }
}

/// A matched prefix is a prefix of the command and one of the capability's
/// own prefixes, and the capability is one of those searched.
pub proof fn lemma_match_is_sound(caps: Seq<CapabilityDescriptorModel>, argv: Seq<Seq<char>>)
    ensures
        first_match(caps, argv) matches Some(m) ==> {
            &&& has_prefix(argv, m.command_prefix)
            &&& m.capability.command_prefixes.contains(m.command_prefix)
            &&& caps.contains(m.capability)
        },
    decreases caps.len(),
{
    if caps.len() > 0 {
        lemma_prefix_match_is_sound(caps[0].command_prefixes, argv);
        lemma_match_is_sound(caps.drop_first(), argv);
        if first_matching_prefix(caps[0].command_prefixes, argv) is None {
            match first_match(caps.drop_first(), argv) {
                Some(m) => {
                    let k = choose|k: int|
                        0 <= k < caps.drop_first().len() && caps.drop_first()[k] == m.capability;
                    assert(caps[k + 1] == m.capability);
                },
                None => {},
            }
        } else {
            assert(caps[0] == caps[0]);
        }
    }
}

/// The first matching prefix is a matching prefix from the list.
pub proof fn lemma_prefix_match_is_sound(prefixes: Seq<Seq<Seq<char>>>, argv: Seq<Seq<char>>)
    ensures
        first_matching_prefix(prefixes, argv) matches Some(p) ==> has_prefix(argv, p)
            && prefixes.contains(p),
    decreases prefixes.len(),
{
    if prefixes.len() > 0 {
        lemma_prefix_match_is_sound(prefixes.drop_first(), argv);
        if !has_prefix(argv, prefixes[0]) {
            match first_matching_prefix(prefixes.drop_first(), argv) {
                Some(p) => {
                    let k = choose|k: int|
                        0 <= k < prefixes.drop_first().len() && prefixes.drop_first()[k] == p;
                    assert(prefixes[k + 1] == p);
                },
                None => {},
            }
        } else {
            assert(prefixes[0] == prefixes[0]);
        }
    }
}

/// No match is found exactly when no capability has a prefix of the command.
pub proof fn lemma_no_match_means_no_prefix(caps: Seq<CapabilityDescriptorModel>, argv: Seq<Seq<char>>)
    ensures
        first_match(caps, argv) is None <==> forall|i: int, j: int|
            0 <= i < caps.len() && 0 <= j < caps[i].command_prefixes.len() ==> !has_prefix(
                argv,
                #[trigger] caps[i].command_prefixes[j],
            ),
    decreases caps.len(),
{
    if caps.len() > 0 {
        lemma_no_prefix_match(caps[0].command_prefixes, argv);
        lemma_no_match_means_no_prefix(caps.drop_first(), argv);
        if first_match(caps, argv) is None {
            assert forall|i: int, j: int|
                0 <= i < caps.len() && 0 <= j < caps[i].command_prefixes.len() implies !has_prefix(
                argv,
                #[trigger] caps[i].command_prefixes[j],
            ) by {
                if i > 0 {
                    assert(caps[i] == caps.drop_first()[i - 1]);
                }
            }
        } else {
            if first_matching_prefix(caps[0].command_prefixes, argv) is None {
                let (i, j) = choose|i: int, j: int|
                    0 <= i < caps.drop_first().len() && 0 <= j
                        < caps.drop_first()[i].command_prefixes.len() && has_prefix(
                        argv,
                        #[trigger] caps.drop_first()[i].command_prefixes[j],
                    );
                assert(caps[i + 1] == caps.drop_first()[i]);
            } else {
                let j = choose|j: int|
                    0 <= j < caps[0].command_prefixes.len() && has_prefix(
                        argv,
                        #[trigger] caps[0].command_prefixes[j],
                    );
                assert(caps[0].command_prefixes[j] == caps[0].command_prefixes[j]);
            }
        }
    }
}

/// No prefix is found exactly when none of the prefixes matches.
pub proof fn lemma_no_prefix_match(prefixes: Seq<Seq<Seq<char>>>, argv: Seq<Seq<char>>)
    ensures
        first_matching_prefix(prefixes, argv) is None <==> forall|j: int|
            0 <= j < prefixes.len() ==> !has_prefix(argv, #[trigger] prefixes[j]),
    decreases prefixes.len(),
{
    if prefixes.len() > 0 {
        lemma_no_prefix_match(prefixes.drop_first(), argv);
        if first_matching_prefix(prefixes, argv) is None {
            assert forall|j: int| 0 <= j < prefixes.len() implies !has_prefix(
                argv,
                #[trigger] prefixes[j],
            ) by {
                if j > 0 {
                    assert(prefixes[j] == prefixes.drop_first()[j - 1]);
                }
            }
        } else if !has_prefix(argv, prefixes[0]) {
            let j = choose|j: int|
                0 <= j < prefixes.drop_first().len() && has_prefix(
                    argv,
                    #[trigger] prefixes.drop_first()[j],
                );
            assert(prefixes[j + 1] == prefixes.drop_first()[j]);
        }
    }
}

impl Default for CapabilityRegistry {
    /// The registry with the built-in capabilities only.
    fn default() -> (r: Self)
        ensures
            r@.builtin == builtin_capabilities(),
            r@.registered == Seq::<CapabilityDescriptorModel>::empty(),
    {
        CapabilityRegistry::new()
    }
}

} // verus!
