//! The command-line surface the front end hands over, and the long version
//! banner it shows.

use vstd::prelude::*;
use vstd::string::StringExecFns;
use crate::metrics::{compile_cpu_features, runtime_cpu_features, spec_avx_flag, spec_simd_flag};

verus! {

/// Valid sub commands for the service parent command.
pub enum SvcCmds {
    Install,
}

/// Valid sub commands for the application.
pub enum SubCmds {
    /// Runs the application and begins reporting metrics.
    Run { token: String },
    /// Installs the files to run the agent as a service.
    Service { service_cmds: SvcCmds },
}

/// The parsed command line: which subcommand was chosen, with its arguments.
/// The front end parses flags and environment variables into this shape; the
/// core only reads it.
pub struct CliConfig {
    pub cmds: SubCmds,
}

impl CliConfig {
    /// The check-in token, exactly when the run command was chosen.
    pub fn run_token(&self) -> (r: Option<&String>)
        ensures
            r is Some <==> self.cmds is Run,
            (r matches Some(t) ==> (self.cmds matches SubCmds::Run { token } && t@ == token@)),
    {
        match &self.cmds {
            SubCmds::Run { token } => Some(token),
            SubCmds::Service { service_cmds: _ } => None,
        }
    }
}

/// The views of a sequence of string slices.
pub open spec fn str_views(parts: Seq<&str>) -> Seq<Seq<char>> {
    parts.map_values(|p: &str| p@)
}

/// The given parts joined with single spaces.
pub open spec fn spec_join_spaced(parts: Seq<Seq<char>>) -> Seq<char>
    decreases parts.len(),
{
    if parts.len() == 0 {
        Seq::<char>::empty()
    } else if parts.len() == 1 {
        parts[0]
    } else {
        spec_join_spaced(parts.drop_last()) + " "@ + parts.last()
    }
}

/// Joins string parts with single spaces.
pub fn join_spaced(parts: &Vec<&str>) -> (r: String)
    ensures
        r@ == spec_join_spaced(str_views(parts@)),
{
    let mut out = String::new();
    if parts.len() == 0 {
        assert(str_views(parts@) =~= Seq::<Seq<char>>::empty());
        return out;
    }
    out.append(parts[0]);
    assert(str_views(parts@).take(1) =~= seq![parts@[0]@]);
    let mut i: usize = 1;
    while i < parts.len()
        invariant
            1 <= i <= parts@.len(),
            out@ == spec_join_spaced(str_views(parts@).take(i as int)),
        decreases parts@.len() - i,
    {
        out.append(" ");
        out.append(parts[i]);
        proof {
            let views = str_views(parts@);
            assert(views.take(i + 1).drop_last() =~= views.take(i as int));
            assert(views.take(i + 1).last() == parts@[i as int]@);
        }
        i = i + 1;
    }
    assert(str_views(parts@).take(parts@.len() as int) =~= str_views(parts@));
    out
}

/// The revision fragment of the banner: empty when no build hash is known,
/// else the hash in a `(rev ...)` note.
pub open spec fn spec_rev_fragment(revision_hash: Option<&str>) -> Seq<char> {
    match revision_hash {
        None => Seq::<char>::empty(),
        Some(h) => " (rev "@ + h@ + ")"@,
    }
}

/// The long version banner for given build facts: the version itself, the
/// revision fragment, and - when CPU details were asked for - a compiled
/// feature line, plus a runtime feature line wherever run-time detection
/// applies (that is, on x86-64).
pub open spec fn spec_long_version(
    version: Seq<char>,
    rev: Seq<char>,
    cpu: bool,
    x86_64: bool,
    ssse3: bool,
    avx2: bool,
) -> Seq<char> {
    if !cpu {
        version + rev
    } else if !x86_64 {
        version + rev + "\n"@ + spec_join_spaced(seq!["-SIMD"@, "-AVX"@]) + " (compiled)"@
    } else {
        version + rev + "\n"@ + spec_join_spaced(seq!["-SIMD"@, "-AVX"@]) + " (compiled)"@ + "\n"@
            + spec_join_spaced(seq![spec_simd_flag(ssse3), spec_avx_flag(avx2)]) + " (runtime)"@
    }
}

/// Renders the long version banner. The revision hash is used when given; if
/// `cpu` is set the banner also carries the compiled CPU features and, on
/// x86-64, the ones detected at run time (as probed by the caller).
pub fn long_version(
    version: &str,
    revision_hash: Option<&str>,
    cpu: bool,
    x86_64: bool,
    ssse3: bool,
    avx2: bool,
) -> (r: String)
    ensures
        r@ == spec_long_version(
            version@,
            spec_rev_fragment(revision_hash),
            cpu,
            x86_64,
            ssse3,
            avx2,
        ),
{
    let mut out = String::new();
    out.append(version);
    match revision_hash {
        None => {},
        Some(h) => {
            out.append(" (rev ");
            out.append(h);
            out.append(")");
        },
    }
    assert(out@ =~= version@ + spec_rev_fragment(revision_hash));
    if cpu {
        out.append("\n");
        let compiled = compile_cpu_features();
        let joined = join_spaced(&compiled);
        proof {
            assert(str_views(compiled@) =~= seq!["-SIMD"@, "-AVX"@]);
        }
        out.append(joined.as_str());
        out.append(" (compiled)");
        let runtime = runtime_cpu_features(x86_64, ssse3, avx2);
        if runtime.len() > 0 {
            out.append("\n");
            let joined_rt = join_spaced(&runtime);
            proof {
                assert(str_views(runtime@) =~= seq![spec_simd_flag(ssse3), spec_avx_flag(avx2)]);
            }
            out.append(joined_rt.as_str());
            out.append(" (runtime)");
        }
        assert(out@ =~= spec_long_version(
            version@,
            spec_rev_fragment(revision_hash),
            cpu,
            x86_64,
            ssse3,
            avx2,
        ));
    }
    out
}

} // verus!
