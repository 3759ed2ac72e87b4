//! The fixed, human-readable layout in which the run operation lists the
//! loaded server records.

use vstd::prelude::*;
use vstd::string::StringExecFns;
use crate::schema::{strings_model, FleetConfig, ServerModel, ServerRecord};

verus! {

/// A package name between single quotes.
pub open spec fn quoted(name: Seq<char>) -> Seq<char> {
    "'"@ + name + "'"@
}

/// The package names, quoted and separated by commas.
pub open spec fn joined_pkgs(pkgs: Seq<Seq<char>>) -> Seq<char>
    decreases pkgs.len(),
{
    if pkgs.len() == 0 {
        Seq::empty()
    } else if pkgs.len() == 1 {
        quoted(pkgs[0])
    } else {
        quoted(pkgs[0]) + ", "@ + joined_pkgs(pkgs.drop_first())
    }
}

/// The lines that list one server: its name and every field.
pub open spec fn server_lines(name: Seq<char>, s: ServerModel) -> Seq<char> {
    "Server: "@ + name + "\n  IP: "@ + s.ip + "\n  SSH Key: "@ + s.ssh_key + "\n  User: "@
        + s.user + "\n  Role: "@ + s.role + "\n  Packages: ["@ + joined_pkgs(s.pkgs) + "]\n"@
}

/// The whole listing: every server's lines, in declaration order.
pub open spec fn config_lines(servers: Seq<(Seq<char>, ServerModel)>) -> Seq<char>
    decreases servers.len(),
{
    if servers.len() == 0 {
        Seq::empty()
    } else {
        server_lines(servers[0].0, servers[0].1) + config_lines(servers.drop_first())
    }
}

/// Appending one more package joins it to the end, after a comma.
proof fn lemma_joined_pkgs_snoc(pkgs: Seq<Seq<char>>, x: Seq<char>)
    ensures
        joined_pkgs(pkgs.push(x)) == if pkgs.len() == 0 {
            quoted(x)
        } else {
            joined_pkgs(pkgs) + ", "@ + quoted(x)
        },
    decreases pkgs.len(),
{
    if pkgs.len() == 0 {
        assert(pkgs.push(x)[0] == x);
    } else {
        assert(pkgs.push(x).drop_first() =~= pkgs.drop_first().push(x));
        lemma_joined_pkgs_snoc(pkgs.drop_first(), x);
        if pkgs.len() == 1 {
            assert(pkgs.push(x)[0] == pkgs[0]);
        }
    }
}

/// Renders one server's lines, as `server_lines` describes.
#[verifier::loop_isolation(false)]
pub fn render_server(name: &String, s: &ServerRecord) -> (r: String)
    ensures
        r@ == server_lines(name@, s.model()),
{
    let mut out = "Server: ".to_owned();
    out.append(name.as_str());
    out.append("\n  IP: ");
    out.append(s.ip.as_str());
    out.append("\n  SSH Key: ");
    out.append(s.ssh_key.as_str());
    out.append("\n  User: ");
    out.append(s.user.as_str());
    out.append("\n  Role: ");
    out.append(s.role.as_str());
    out.append("\n  Packages: [");
    let ghost head = out@;
    let ghost pm = strings_model(s.pkgs@);
    let n = s.pkgs.len();
    let mut i: usize = 0;
    while i < n
        invariant
            i <= n,
            n == s.pkgs@.len(),
            out@ == head + joined_pkgs(pm.take(i as int)),
        decreases n - i,
    {
        if i > 0 {
            out.append(", ");
        }
        out.append("'");
        out.append(s.pkgs[i].as_str());
        out.append("'");
        proof {
            lemma_joined_pkgs_snoc(pm.take(i as int), pm[i as int]);
            assert(pm.take(i as int).push(pm[i as int]) =~= pm.take(i + 1));
            assert(quoted(pm[i as int]) == "'"@ + s.pkgs@[i as int]@ + "'"@);
            if i == 0 {
                assert(pm.take(0).len() == 0);
                assert(out@ =~= head + joined_pkgs(pm.take(1)));
            } else {
                assert(out@ =~= head + (joined_pkgs(pm.take(i as int)) + ", "@ + quoted(
                    pm[i as int],
                )));
            }
        }
        i = i + 1;
    }
    proof {
        assert(pm.take(n as int) =~= pm);
    }
    out.append("]\n");
    proof {
        assert(out@ =~= server_lines(name@, s.model()));
    }
    out
}

/// Renders the whole listing, as `config_lines` describes.
#[verifier::loop_isolation(false)]
pub fn render_config(config: &FleetConfig) -> (r: String)
    ensures
        r@ == config_lines(config.model()),
{
    let ghost sm = config.model();
    let mut out = String::new();
    let n = config.servers.len();
    let mut i: usize = 0;
    proof {
        assert(sm.skip(0) =~= sm);
    }
    while i < n
        invariant
            i <= n,
            n == config.servers@.len(),
            out@ + config_lines(sm.skip(i as int)) == config_lines(sm),
        decreases n - i,
    {
        let line = render_server(&config.servers[i].0, &config.servers[i].1);
        out.append(line.as_str());
        proof {
            let ghost pair = config.servers@[i as int];
            assert(sm.skip(i as int)[0] == (pair.0@, pair.1.model()));
            assert(sm.skip(i as int).drop_first() =~= sm.skip(i + 1));
            assert((out@ + config_lines(sm.skip(i + 1))) =~= config_lines(sm));
        }
        i = i + 1;
    }
    proof {
        assert(sm.skip(n as int).len() == 0);
        assert(out@ + config_lines(sm.skip(n as int)) =~= out@);
    }
    out
}

} // verus!
