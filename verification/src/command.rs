//! External commands as plain values.
//!
//! The pipeline never spawns a process itself; it only constructs [`Cmd`]
//! values — a program, its arguments and the working directory to run it
//! in — and hands them to the caller for execution.

use vstd::prelude::*;

use crate::errors::BuildError;
use crate::numerals::dec_rep;
use crate::version::{max_patch, tag_prefix};
use crate::Build;

verus! {

/// One external command: the program to run, its arguments, and the
/// directory to run it in.
#[derive(Debug, Clone, PartialEq, Eq)]
pub struct Cmd {
    pub program: String,
    pub args: Vec<String>,
    pub dir: String,
}

/// The character sequences of a sequence of strings.
pub open spec fn arg_views(args: Seq<String>) -> Seq<Seq<char>> {
    args.map_values(|a: String| a@)
}

/// Whether `c` is exactly the command `program args`, run in `dir`.
pub open spec fn cmd_is(c: Cmd, program: Seq<char>, args: Seq<Seq<char>>, dir: Seq<char>) -> bool {
    &&& c.program@ == program
    &&& arg_views(c.args@) == args
    &&& c.dir@ == dir
}

/// The tag listing command of `b`: `git tag -l v<version>.*`, run in the
/// staged build directory.
pub open spec fn is_list_tags_cmd(c: Cmd, b: Build) -> bool {
    cmd_is(
        c,
        "git"@,
        seq!["tag"@, "-l"@, seq!['v'] + b.version@ + seq!['.', '*']],
        b.build_dir@,
    )
}

/// The checkout command of `b` for the resolved tag `tag`:
/// `git checkout <tag>`, run in the staged build directory.
pub open spec fn is_checkout_cmd(c: Cmd, b: Build, tag: Seq<char>) -> bool {
    cmd_is(c, "git"@, seq!["checkout"@, tag], b.build_dir@)
}

/// The configure command of `b`: the staged tree's own `./configure`, with
/// the install prefix and the fixed feature-flag set disabling every
/// optional external dependency, run in the staged build directory.
pub open spec fn is_configure_cmd(c: Cmd, b: Build) -> bool {
    cmd_is(
        c,
        "./configure"@,
        seq![
            "--prefix"@,
            b.install_dir@,
            "--disable-zlib"@,
            "--disable-zstd"@,
            "--disable-ssl"@,
            "--disable-gssapi"@,
            "--disable-sasl"@,
            "--disable-curl"@,
            "--disable-lz4-ext"@,
            "--disable-lz4"@,
            "--disable-regex-ext"@,
        ],
        b.build_dir@,
    )
}

/// The number of parallel compile jobs: the caller-supplied override when
/// one was set, else two less than the detected parallelism, but at least
/// one.
pub open spec fn spec_jobs(num_jobs: Option<usize>, detected: usize) -> int {
    match num_jobs {
        Option::Some(n) => n as int,
        Option::None => if detected >= 3 {
            detected - 2
        } else {
            1
        },
    }
}

/// The compile command of `b`: `make -j <jobs>`, run in the staged build
/// directory.
pub open spec fn is_make_cmd(c: Cmd, b: Build, detected: usize) -> bool {
    cmd_is(c, "make"@, seq!["-j"@, dec_rep(spec_jobs(b.num_jobs, detected))], b.build_dir@)
}

/// The install command of `b`: `make install`, run in the staged build
/// directory.
pub open spec fn is_make_install_cmd(c: Cmd, b: Build) -> bool {
    cmd_is(c, "make"@, seq!["install"@], b.build_dir@)
}

impl Cmd {
    /// Splits a raw argument vector into a command, rejecting a vector with
    /// no program token as `EmptyCommand`.
    pub fn from_argv(argv: Vec<String>, dir: String) -> (r: Result<Cmd, BuildError>)
        ensures
            match r {
                Result::Ok(c) => argv@.len() > 0 && c.program == argv@[0] && c.args@ == argv@.skip(
                    1,
                ) && c.dir == dir,
                Result::Err(e) => argv@.len() == 0 && e matches BuildError::EmptyCommand,
            },
    {
        let mut argv = argv;
        if argv.len() == 0 {
            return Err(BuildError::EmptyCommand);
        }
        let ghost orig = argv@;
        let program = argv.remove(0);
        assert(argv@ =~= orig.skip(1));
        Ok(Cmd { program, args: argv, dir })
    }
}

impl Build {
    /// The command listing the revision tags of this request's release
    /// line in the staged tree.
    pub fn list_tags(&self) -> (c: Cmd)
        ensures
            is_list_tags_cmd(c, *self),
    {
        proof {
            reveal_strlit("v");
            reveal_strlit(".*");
            assert("v"@ =~= seq!['v']);
            assert(".*"@ =~= seq!['.', '*']);
        }
        let pattern = String::from_str("v").concat(self.version.as_str()).concat(".*");
        assert(pattern@ =~= seq!['v'] + self.version@ + seq!['.', '*']);
        let mut args: Vec<String> = Vec::new();
        args.push(String::from_str("tag"));
        args.push(String::from_str("-l"));
        args.push(pattern);
        let c = Cmd { program: String::from_str("git"), args, dir: self.build_dir.clone() };
        assert(arg_views(c.args@) =~= seq!["tag"@, "-l"@, seq!['v'] + self.version@ + seq!['.', '*']]);
        c
    }

    /// Resolves the requested minor version against the given tags and, on
    /// success, yields the command switching the staged tree to the
    /// resolved tag.  No candidate tag yields `VersionNotFound`, and no
    /// checkout command at all.
    pub fn checkout_version(&self, tags: &Vec<String>) -> (r: Result<Cmd, BuildError>)
        ensures
            match r {
                Result::Ok(c) => max_patch(tags@, self.version@) is Some
                    && is_checkout_cmd(
                    c,
                    *self,
                    tag_prefix(self.version@) + dec_rep(
                        max_patch(tags@, self.version@)->0,
                    ),
                ),
                Result::Err(e) => max_patch(tags@, self.version@) is None && (e
                    matches BuildError::VersionNotFound { version: v } && v@ == self.version@),
            },
    {
        let tag = match crate::version::resolve_version(tags, self.version.as_str()) {
            Result::Ok(tag) => tag,
            Result::Err(e) => {
                return Err(e);
            },
        };
        let mut args: Vec<String> = Vec::new();
        args.push(String::from_str("checkout"));
        args.push(tag);
        let c = Cmd { program: String::from_str("git"), args, dir: self.build_dir.clone() };
        assert(arg_views(c.args@) =~= seq![
            "checkout"@,
            tag_prefix(self.version@) + dec_rep(max_patch(tags@, self.version@)->0),
        ]);
        Ok(c)
    }

    /// The configure command: the staged tree's own configure entry point,
    /// pointed at the install directory and stripped of every optional
    /// external dependency.
    pub fn configure(&self) -> (c: Cmd)
        ensures
            is_configure_cmd(c, *self),
    {
        let mut args: Vec<String> = Vec::new();
        args.push(String::from_str("--prefix"));
        args.push(self.install_dir.clone());
        args.push(String::from_str("--disable-zlib"));
        args.push(String::from_str("--disable-zstd"));
        args.push(String::from_str("--disable-ssl"));
        args.push(String::from_str("--disable-gssapi"));
        args.push(String::from_str("--disable-sasl"));
        args.push(String::from_str("--disable-curl"));
        args.push(String::from_str("--disable-lz4-ext"));
        args.push(String::from_str("--disable-lz4"));
        args.push(String::from_str("--disable-regex-ext"));
        let c = Cmd {
            program: String::from_str("./configure"),
            args,
            dir: self.build_dir.clone(),
        };
        assert(arg_views(c.args@) =~= seq![
            "--prefix"@,
            self.install_dir@,
            "--disable-zlib"@,
            "--disable-zstd"@,
            "--disable-ssl"@,
            "--disable-gssapi"@,
            "--disable-sasl"@,
            "--disable-curl"@,
            "--disable-lz4-ext"@,
            "--disable-lz4"@,
            "--disable-regex-ext"@,
        ]);
        c
    }

    /// The compile command `make -j <jobs>`, with the job count taken from
    /// the override when one was set, else derived from the detected
    /// parallelism with two jobs of headroom, but never below one.
    pub fn make(&self, detected_parallelism: usize) -> (c: Cmd)
        ensures
            is_make_cmd(c, *self, detected_parallelism),
    {
        let jobs: usize = match self.num_jobs {
            Option::Some(n) => n,
            Option::None => if detected_parallelism >= 3 {
                detected_parallelism - 2
            } else {
                1
            },
        };
        let mut args: Vec<String> = Vec::new();
        args.push(String::from_str("-j"));
        args.push(crate::numerals::render_number(jobs));
        let c = Cmd { program: String::from_str("make"), args, dir: self.build_dir.clone() };
        assert(arg_views(c.args@) =~= seq![
            "-j"@,
            dec_rep(spec_jobs(self.num_jobs, detected_parallelism)),
        ]);
        c
    }

    /// The install command `make install`.
    pub fn make_install(&self) -> (c: Cmd)
        ensures
            is_make_install_cmd(c, *self),
    {
        let mut args: Vec<String> = Vec::new();
        args.push(String::from_str("install"));
        let c = Cmd { program: String::from_str("make"), args, dir: self.build_dir.clone() };
        assert(arg_views(c.args@) =~= seq!["install"@]);
        c
    }
}

} // verus!
