//! The build configuration and the argument vector it stands for.

use vstd::prelude::*;

verus! {

/// What to build: a `.nix` file, a flake installable, or an inline expression.
#[derive(Debug)]
pub enum NixTarget {
    /// Path of a file holding a Nix function or derivation.
    Function(String),
    /// A flake installable such as `nixpkgs#hello`, passed through as it is.
    Flake(String),
    /// A Nix expression, passed through as it is.
    Expr(String),
}

/// Mathematical model of a [`NixTarget`].
pub enum TargetView {
    Function(Seq<char>),
    Flake(Seq<char>),
    Expr(Seq<char>),
}

impl View for NixTarget {
    type V = TargetView;

    open spec fn view(&self) -> TargetView {
        match self {
            NixTarget::Function(file) => TargetView::Function(file@),
            NixTarget::Flake(installable) => TargetView::Flake(installable@),
            NixTarget::Expr(expr) => TargetView::Expr(expr@),
        }
    }
}

impl Default for NixTarget {
    fn default() -> (target: Self)
        ensures
            target@ == TargetView::Function("default.nix"@),
    {
        NixTarget::Function("default.nix".to_owned())
    }
}

/// Mathematical model of a [`Config`].
pub struct ConfigView {
    pub target: TargetView,
    /// `(name, value)` pairs handed over with `--arg`, oldest first.
    pub arg_exprs: Seq<(Seq<char>, Seq<char>)>,
    /// `(name, value)` pairs handed over with `--argstr`, oldest first.
    pub arg_strs: Seq<(Seq<char>, Seq<char>)>,
    pub impure: bool,
}

/// The views of a sequence of strings, in order.
pub open spec fn token_views(tokens: Seq<String>) -> Seq<Seq<char>> {
    Seq::new(tokens.len(), |i: int| tokens[i]@)
}

/// The views of a sequence of `(name, value)` pairs, in order.
pub open spec fn pair_views(pairs: Seq<(String, String)>) -> Seq<(Seq<char>, Seq<char>)> {
    Seq::new(pairs.len(), |i: int| (pairs[i].0@, pairs[i].1@))
}

/// The subcommand and the flags every invocation starts with.
pub open spec fn base_tokens() -> Seq<Seq<char>> {
    seq!["build"@, "--no-link"@, "--json"@]
}

/// The tokens that name the target.
pub open spec fn target_tokens(target: TargetView) -> Seq<Seq<char>> {
    match target {
        TargetView::Function(file) => seq!["-f"@, file],
        TargetView::Flake(installable) => seq![installable],
        TargetView::Expr(expr) => seq!["--expr"@, expr],
    }
}

/// One `flag name value` triple per entry, in the order of the entries.
pub open spec fn arg_tokens(flag: Seq<char>, entries: Seq<(Seq<char>, Seq<char>)>) -> Seq<
    Seq<char>,
> {
    Seq::new(
        3 * entries.len(),
        |i: int|
            if i % 3 == 0 {
                flag
            } else if i % 3 == 1 {
                entries[i / 3].0
            } else {
                entries[i / 3].1
            },
    )
}

/// `--impure` when impure evaluation is asked for, nothing otherwise.
pub open spec fn impure_tokens(impure: bool) -> Seq<Seq<char>> {
    if impure {
        seq!["--impure"@]
    } else {
        seq![]
    }
}

/// The flags every invocation ends with: build logs, and the experimental
/// features that the `nix build` command and flakes need.
pub open spec fn trailing_tokens() -> Seq<Seq<char>> {
    seq!["-L"@, "--experimental-features"@, "nix-command flakes"@]
}

/// The whole argument vector of `nix` for a configuration.
pub open spec fn command_tokens(config: ConfigView) -> Seq<Seq<char>> {
    base_tokens() + target_tokens(config.target) + arg_tokens("--arg"@, config.arg_exprs)
        + arg_tokens("--argstr"@, config.arg_strs) + impure_tokens(config.impure)
        + trailing_tokens()
}

/// A path to watch for changes, still to be resolved on disk.
#[derive(Debug)]
pub enum ChangeHint {
    /// Nothing to watch.
    Nothing,
    /// This file, as given.
    File(String),
    /// The lock file inside this directory, if the directory exists.
    FlakeLock(String),
}

/// Mathematical model of a [`ChangeHint`].
pub enum ChangeHintView {
    Nothing,
    File(Seq<char>),
    FlakeLock(Seq<char>),
}

impl View for ChangeHint {
    type V = ChangeHintView;

    open spec fn view(&self) -> ChangeHintView {
        match self {
            ChangeHint::Nothing => ChangeHintView::Nothing,
            ChangeHint::File(file) => ChangeHintView::File(file@),
            ChangeHint::FlakeLock(dir) => ChangeHintView::FlakeLock(dir@),
        }
    }
}

/// The position of the first `#` in `s`, if there is one.
pub open spec fn first_hash(s: Seq<char>) -> Option<int> {
    if exists|i: int| 0 <= i < s.len() && s[i] == '#' {
        Some(choose|i: int| 0 <= i < s.len() && s[i] == '#' && forall|j: int| 0 <= j < i ==> s[j] != '#')
    } else {
        None
    }
}

/// What stands before the first `#` of a flake installable, if it has one.
pub open spec fn flake_dir_of(installable: Seq<char>) -> Option<Seq<char>> {
    match first_hash(installable) {
        Some(i) => Some(installable.take(i)),
        None => None,
    }
}

/// The change hint that a target gives.
pub open spec fn change_hint_of(target: TargetView) -> ChangeHintView {
    match target {
        TargetView::Function(file) => ChangeHintView::File(file),
        TargetView::Flake(installable) => match flake_dir_of(installable) {
            Some(dir) => ChangeHintView::FlakeLock(dir),
            None => ChangeHintView::Nothing,
        },
        TargetView::Expr(_) => ChangeHintView::Nothing,
    }
}

/// The name of a flake's lock file inside the flake's directory.
pub fn lock_file_name() -> (name: String)
    ensures
        name@ == "flake.lock"@,
{
    "flake.lock".to_owned()
}

/// Splits a flake installable at its first `#` and returns what stands before
/// it; `None` if it has no `#`.
pub fn before_hash(installable: &str) -> (dir: Option<String>)
    ensures
        match dir {
            Some(d) => exists|i: int|
                0 <= i < installable@.len() && installable@[i] == '#' && (forall|j: int|
                    0 <= j < i ==> installable@[j] != '#') && d@ == installable@.take(i),
            None => forall|j: int| 0 <= j < installable@.len() ==> installable@[j] != '#',
        },
        match dir {
            Some(d) => flake_dir_of(installable@) == Some(d@),
            None => flake_dir_of(installable@) is None,
        },
{
    let n: usize = installable.unicode_len();
    let mut i: usize = 0;
    while i < n
        invariant
            n == installable@.len(),
            i <= n,
            forall|j: int| 0 <= j < i ==> installable@[j] != '#',
        decreases n - i,
    {
        if installable.get_char(i) == '#' {
            let dir = installable.substring_char(0, i).to_owned();
            proof {
                let s = installable@;
                let w = i as int;
                assert(s.subrange(0, w) =~= s.take(w));
                assert(0 <= w < s.len() && s[w] == '#' && forall|j: int| 0 <= j < w ==> s[j] != '#');
                let c = first_hash(s)->Some_0;
                assert(0 <= c < s.len() && s[c] == '#' && forall|j: int| 0 <= j < c ==> s[j] != '#');
                assert(c == w) by {
                    if c < w {
                        assert(s[c] != '#');
                    }
                    if w < c {
                        assert(s[w] != '#');
                    }
                }
            }
            return Some(dir);
        }
        i += 1;
    }
    None
}

/// Build style configuration for a pending build.
pub struct Config {
    target: NixTarget,
    arg_exprs: Vec<(String, String)>,
    arg_strs: Vec<(String, String)>,
    impure: bool,
}

impl View for Config {
    type V = ConfigView;

    closed spec fn view(&self) -> ConfigView {
        ConfigView {
            target: self.target@,
            arg_exprs: pair_views(self.arg_exprs@),
            arg_strs: pair_views(self.arg_strs@),
            impure: self.impure,
        }
    }
}

impl Default for Config {
    fn default() -> (config: Self)
        ensures
            config@ == Config::initial(),
    {
        Config::new()
    }
}

/// Appends `flag name value` for each entry to `out`.
fn push_arg_tokens(out: &mut Vec<String>, flag: &str, entries: &Vec<(String, String)>)
    ensures
        token_views(final(out)@) == token_views(old(out)@) + arg_tokens(
            flag@,
            pair_views(entries@),
        ),
{
    let ghost before = token_views(out@);
    let ghost triples = arg_tokens(flag@, pair_views(entries@));
    let mut i: usize = 0;
    while i < entries.len()
        invariant
            i <= entries.len(),
            triples == arg_tokens(flag@, pair_views(entries@)),
            token_views(out@) =~= before + triples.take(3 * i),
        decreases entries.len() - i,
    {
        let ghost prev = token_views(out@);
        out.push(flag.to_owned());
        out.push(entries[i].0.clone());
        out.push(entries[i].1.clone());
        proof {
            let k = 3 * i;
            assert(token_views(out@) =~= prev + seq![flag@, entries[i as int].0@, entries[i as int].1@]);
            assert(triples[k] == flag@ && triples[k + 1] == entries[i as int].0@ && triples[k + 2]
                == entries[i as int].1@);
            assert(triples.take(k + 3) =~= triples.take(k) + seq![
                triples[k],
                triples[k + 1],
                triples[k + 2],
            ]);
        }
        i += 1;
    }
    assert(triples.take(3 * i) =~= triples);
}

impl Config {
    /// The configuration that [`Config::new`] gives: the file `default.nix`,
    /// no arguments, pure evaluation.
    pub open spec fn initial() -> ConfigView {
        ConfigView {
            target: TargetView::Function("default.nix"@),
            arg_exprs: Seq::empty(),
            arg_strs: Seq::empty(),
            impure: false,
        }
    }

    /// Create a new nix build [`Config`]
    ///
    /// Target is defaulted to `default.nix`
    pub fn new() -> (config: Self)
        ensures
            config@ == Config::initial(),
    {
        let config = Config {
            target: NixTarget::default(),
            arg_exprs: Vec::new(),
            arg_strs: Vec::new(),
            impure: false,
        };
        assert(pair_views(config.arg_exprs@) =~= Seq::empty());
        assert(pair_views(config.arg_strs@) =~= Seq::empty());
        config
    }

    /// Add an expression argument to the invoked nix expression
    pub fn arg_expr(&mut self, name: &str, value: &str) -> (ret: &mut Self)
        ensures
            ret@ == (ConfigView { arg_exprs: old(self)@.arg_exprs.push((name@, value@)), ..old(self)@ }),
            *final(self) == *final(ret),
    {
        self.arg_exprs.push((name.to_owned(), value.to_owned()));
        assert(pair_views(self.arg_exprs@) =~= pair_views(old(self).arg_exprs@).push((name@, value@)));
        self
    }

    /// Add a string argument to the invoked nix expression
    pub fn arg_str(&mut self, name: &str, value: &str) -> (ret: &mut Self)
        ensures
            ret@ == (ConfigView { arg_strs: old(self)@.arg_strs.push((name@, value@)), ..old(self)@ }),
            *final(self) == *final(ret),
    {
        self.arg_strs.push((name.to_owned(), value.to_owned()));
        assert(pair_views(self.arg_strs@) =~= pair_views(old(self).arg_strs@).push((name@, value@)));
        self
    }

    /// Build the derivation described by the given .nix file
    pub fn target_file(&mut self, filename: &str) -> (ret: &mut Self)
        ensures
            ret@ == (ConfigView { target: TargetView::Function(filename@), ..old(self)@ }),
            *final(self) == *final(ret),
    {
        self.target = NixTarget::Function(filename.to_owned());
        self
    }

    /// Build the derivation described by the given flake output
    pub fn target_flake(&mut self, flake: &str) -> (ret: &mut Self)
        ensures
            ret@ == (ConfigView { target: TargetView::Flake(flake@), ..old(self)@ }),
            *final(self) == *final(ret),
    {
        self.target = NixTarget::Flake(flake.to_owned());
        self
    }

    /// Build the derivation described by the given expression
    pub fn target_expr(&mut self, expr: &str) -> (ret: &mut Self)
        ensures
            ret@ == (ConfigView { target: TargetView::Expr(expr@), ..old(self)@ }),
            *final(self) == *final(ret),
    {
        self.target = NixTarget::Expr(expr.to_owned());
        self
    }

    /// Set to enable impure evaluation mode
    ///
    /// Will pass the `--impure` flag to the invocation if set
    pub fn impure(&mut self, impure: bool) -> (ret: &mut Self)
        ensures
            ret@ == (ConfigView { impure, ..old(self)@ }),
            *final(self) == *final(ret),
    {
        self.impure = impure;
        self
    }

    /// The path whose change makes an earlier build result stale, as far as
    /// the target alone tells: the file itself for a file target, the lock
    /// file of the directory before `#` for a flake, nothing otherwise.
    pub fn change_hint(&self) -> (hint: ChangeHint)
        ensures
            hint@ == change_hint_of(self@.target),
    {
        match &self.target {
            NixTarget::Function(file) => ChangeHint::File(file.clone()),
            NixTarget::Flake(installable) => match before_hash(installable.as_str()) {
                Some(dir) => ChangeHint::FlakeLock(dir),
                None => ChangeHint::Nothing,
            },
            NixTarget::Expr(_) => ChangeHint::Nothing,
        }
    }

    /// The argument vector of `nix` for this configuration: the subcommand
    /// and its fixed flags, the target, the `--arg` entries, the `--argstr`
    /// entries, `--impure` if set, then the fixed trailing flags.
    pub fn args(&self) -> (tokens: Vec<String>)
        ensures
            token_views(tokens@) == command_tokens(self@),
    {
        let mut tokens: Vec<String> = Vec::new();
        tokens.push("build".to_owned());
        tokens.push("--no-link".to_owned());
        tokens.push("--json".to_owned());
        assert(token_views(tokens@) =~= base_tokens());
        let ghost base = token_views(tokens@);
        match &self.target {
            NixTarget::Function(file) => {
                tokens.push("-f".to_owned());
                tokens.push(file.clone());
            },
            NixTarget::Flake(installable) => {
                tokens.push(installable.clone());
            },
            NixTarget::Expr(expr) => {
                tokens.push("--expr".to_owned());
                tokens.push(expr.clone());
            },
        }
        assert(token_views(tokens@) =~= base + target_tokens(self.target@));
        push_arg_tokens(&mut tokens, "--arg", &self.arg_exprs);
        push_arg_tokens(&mut tokens, "--argstr", &self.arg_strs);
        let ghost with_args = token_views(tokens@);
        if self.impure {
            tokens.push("--impure".to_owned());
        }
        assert(token_views(tokens@) =~= with_args + impure_tokens(self.impure));
        let ghost with_impure = token_views(tokens@);
        tokens.push("-L".to_owned());
        tokens.push("--experimental-features".to_owned());
        tokens.push("nix-command flakes".to_owned());
        assert(token_views(tokens@) =~= with_impure + trailing_tokens());
        tokens
    }
}

/// A configuration with a file target and no arguments stands for the base
/// tokens, then `-f` and the file, then `--impure` if set and the trailing
/// flags, with nothing in between.
pub proof fn lemma_file_target_tokens(config: ConfigView, file: Seq<char>)
    requires
        config.target == TargetView::Function(file),
        config.arg_exprs.len() == 0,
        config.arg_strs.len() == 0,
    ensures
        command_tokens(config).take(3) == base_tokens(),
        command_tokens(config).subrange(3, 5) == seq!["-f"@, file],
        command_tokens(config) == base_tokens() + seq!["-f"@, file] + impure_tokens(config.impure)
            + trailing_tokens(),
{
    let none: Seq<Seq<char>> = Seq::empty();
    assert(arg_tokens("--arg"@, config.arg_exprs) =~= none);
    assert(arg_tokens("--argstr"@, config.arg_strs) =~= none);
    let t = command_tokens(config);
    assert(t =~= base_tokens() + seq!["-f"@, file] + impure_tokens(config.impure)
        + trailing_tokens());
    assert(t.take(3) =~= base_tokens());
    assert(t.subrange(3, 5) =~= seq!["-f"@, file]);
}

/// Where the argument tokens start: after the base tokens and the target.
pub open spec fn args_start(config: ConfigView) -> int {
    3 + target_tokens(config.target).len() as int
}

/// Every argument stands in the argument vector as the triple of its flag,
/// its name and its value; the triples follow the target in the order in
/// which the arguments were added, all `--arg` triples before all `--argstr`
/// triples, and `--impure` or the trailing flags come right after the last.
pub proof fn lemma_argument_triples_in_order(config: ConfigView)
    ensures
        forall|i: int|
            0 <= i < config.arg_exprs.len() ==> {
                let at = args_start(config) + 3 * i;
                &&& command_tokens(config)[at] == "--arg"@
                &&& command_tokens(config)[at + 1] == (#[trigger] config.arg_exprs[i]).0
                &&& command_tokens(config)[at + 2] == config.arg_exprs[i].1
            },
        forall|i: int|
            0 <= i < config.arg_strs.len() ==> {
                let at = args_start(config) + 3 * config.arg_exprs.len() + 3 * i;
                &&& command_tokens(config)[at] == "--argstr"@
                &&& command_tokens(config)[at + 1] == (#[trigger] config.arg_strs[i]).0
                &&& command_tokens(config)[at + 2] == config.arg_strs[i].1
            },
        command_tokens(config).len() == args_start(config) + 3 * config.arg_exprs.len() + 3
            * config.arg_strs.len() + impure_tokens(config.impure).len() + 3,
{
}

/// The argument vector shows the current target only: whatever target a
/// configuration had before, after a new one is set the tokens are those of
/// a configuration that never had another, and between the base tokens and
/// the arguments stand the tokens of the new target and no others.
pub proof fn lemma_new_target_replaces_old(config: ConfigView, old_target: TargetView)
    ensures
        command_tokens(config) == command_tokens(
            ConfigView { target: config.target, ..ConfigView { target: old_target, ..config } },
        ),
        command_tokens(config).subrange(3, args_start(config)) == target_tokens(config.target),
        config.target matches TargetView::Flake(installable) ==> args_start(config) == 4
            && command_tokens(config)[3] == installable,
{
    assert(command_tokens(config).subrange(3, args_start(config)) =~= target_tokens(
        config.target,
    ));
}

/// The argument vector always ends with the three trailing flags. With
/// impure evaluation `--impure` stands right before them and right after the
/// arguments; without it nothing stands there, and the two vectors agree
/// everywhere else.
pub proof fn lemma_impure_token_position(config: ConfigView)
    ensures
        ({
            let pure = command_tokens(ConfigView { impure: false, ..config });
            let impure = command_tokens(ConfigView { impure: true, ..config });
            let tokens = command_tokens(config);
            let args_end = args_start(config) + 3 * config.arg_exprs.len() + 3
                * config.arg_strs.len();
            &&& tokens.subrange(tokens.len() - 3, tokens.len() as int) == trailing_tokens()
            &&& pure.len() == args_end + 3
            &&& impure.len() == args_end + 4
            &&& impure[args_end] == "--impure"@
            &&& impure.take(args_end) == pure.take(args_end)
            &&& impure.skip(args_end + 1) == pure.skip(args_end)
            &&& pure.skip(args_end) == trailing_tokens()
        }),
{
    let pure = command_tokens(ConfigView { impure: false, ..config });
    let impure = command_tokens(ConfigView { impure: true, ..config });
    let tokens = command_tokens(config);
    let args_end = args_start(config) + 3 * config.arg_exprs.len() + 3 * config.arg_strs.len();
    assert(tokens.subrange(tokens.len() - 3, tokens.len() as int) =~= trailing_tokens());
    assert(impure.take(args_end) =~= pure.take(args_end));
    assert(pure.skip(args_end) =~= trailing_tokens());
    assert(impure.skip(args_end + 1) =~= pure.skip(args_end));
}

} // verus!
