//! The fixed template document that the init operation writes.

use vstd::prelude::*;

verus! {

/// The template content as a mathematical sequence of characters.
pub open spec fn template() -> Seq<char> {
    r#"
[servers]
[servers.aubergine]
ip      = '10.0.0.10'
ssh_key = '~/.ssh/key'
user    = 'root'
role    = 'cntrl'
pkgs = ['nala', 'curl', 'wget', 'net-tools']
[servers.rhubarb]
ip      = '10.0.0.11'
ssh_key = '~/.ssh/key'
user    = 'root'
role    = 'agent'
pkgs = ['nala', 'curl', 'wget']
        "#@
}

/// The template content, exactly as `template` describes it.
pub fn template_text() -> (r: &'static str)
    ensures
        r@ == template(),
{
    r#"
[servers]
[servers.aubergine]
ip      = '10.0.0.10'
ssh_key = '~/.ssh/key'
user    = 'root'
role    = 'cntrl'
pkgs = ['nala', 'curl', 'wget', 'net-tools']
[servers.rhubarb]
ip      = '10.0.0.11'
ssh_key = '~/.ssh/key'
user    = 'root'
role    = 'agent'
pkgs = ['nala', 'curl', 'wget']
        "#
}

} // verus!
