//! The configuration file: where it is looked for, what is kept of it, and
//! how variables of the environment are filled into its values.

use vstd::prelude::*;
use vstd::string::*;
use crate::text::{chars_of, first_index, lemma_first_index};

verus! {

/// Why a value with variables could not be filled in.
#[derive(Debug, Clone, PartialEq, Eq)]
pub enum TemplateError {
    /// A `${` without a `}` after it.
    Unterminated,
    /// A variable that the environment does not have.
    Undefined(String),
}

/// The mathematical value of a `TemplateError`.
pub enum TemplateErrorView {
    Unterminated,
    Undefined(Seq<char>),
}

impl View for TemplateError {
    type V = TemplateErrorView;

    open spec fn view(&self) -> TemplateErrorView {
        match self {
            TemplateError::Unterminated => TemplateErrorView::Unterminated,
            TemplateError::Undefined(n) => TemplateErrorView::Undefined(n@),
        }
    }
}

impl TemplateErrorView {
    /// The line shown to the operator.
    pub open spec fn text(self) -> Seq<char> {
        match self {
            TemplateErrorView::Unterminated => "Variable reference is not closed"@,
            TemplateErrorView::Undefined(n) => "Variable "@ + n + " is not present"@,
        }
    }
}

impl TemplateError {
    /// The line shown to the operator.
    pub fn description(&self) -> (s: String)
        ensures
            s@ == self@.text(),
    {
        match self {
            TemplateError::Unterminated => String::from_str("Variable reference is not closed"),
            TemplateError::Undefined(n) => {
                let mut s = String::from_str("Variable ");
                s.append(n.as_str());
                s.append(" is not present");
                s
            },
        }
    }
}

/// The names and values of the variables of an environment.
pub open spec fn variables(env: Seq<(String, String)>) -> Seq<(Seq<char>, Seq<char>)> {
    env.map_values(|e: (String, String)| (e.0@, e.1@))
}

/// The value of the first variable called `name`.
pub open spec fn value_in(env: Seq<(Seq<char>, Seq<char>)>, name: Seq<char>) -> Option<Seq<char>>
    decreases env.len(),
{
    if env.len() == 0 {
        None
    } else if env[0].0 == name {
        Some(env[0].1)
    } else {
        value_in(env.drop_first(), name)
    }
}

/// The place of the first `${` in `s`, or the length of `s` where it has
/// none.
pub open spec fn opening(s: Seq<char>) -> int
    decreases s.len(),
{
    if s.len() < 2 {
        s.len() as int
    } else if s[0] == '$' && s[1] == '{' {
        0
    } else {
        1 + opening(s.drop_first())
    }
}

/// Whether a `${` stands at place `i` of `s`.
pub open spec fn opens_at(s: Seq<char>, i: int) -> bool {
    0 <= i && i + 1 < s.len() && s[i] == '$' && s[i + 1] == '{'
}

/// `opening` is the place before which no `${` stands and at which one
/// does, or the text ends.
pub proof fn lemma_opening(s: Seq<char>, k: int)
    requires
        0 <= k <= s.len(),
        forall|j: int| 0 <= j < k ==> !opens_at(s, j),
        k == s.len() || opens_at(s, k),
    ensures
        opening(s) == k,
    decreases s.len(),
{
    if s.len() >= 2 {
        if k > 0 {
            assert(!opens_at(s, 0));
            let rest = s.drop_first();
            assert forall|j: int| 0 <= j < k - 1 implies !opens_at(rest, j) by {
                assert(!opens_at(s, j + 1));
            }
            lemma_opening(rest, k - 1);
        }
    }
}

/// The text `s` with every `${NAME}` replaced by the value of the variable
/// `NAME`. It is an error where a `${` is not followed by a `}`, and where
/// the environment has no variable of the name.
pub open spec fn substituted(s: Seq<char>, env: Seq<(Seq<char>, Seq<char>)>) -> Result<
    Seq<char>,
    TemplateErrorView,
>
    decreases s.len(),
{
    let i = opening(s);
    if i < 0 || i + 2 > s.len() {
        Ok(s)
    } else {
        let rest = s.skip(i + 2);
        let j = first_index(rest, '}');
        if j < 0 || j >= rest.len() {
            Err(TemplateErrorView::Unterminated)
        } else {
            match value_in(env, rest.take(j)) {
                None => Err(TemplateErrorView::Undefined(rest.take(j))),
                Some(v) => match substituted(rest.skip(j + 1), env) {
                    Ok(t) => Ok(s.take(i) + v + t),
                    Err(e) => Err(e),
                },
            }
        }
    }
}

/// The value of the first variable called `name`.
pub fn lookup<'a>(env: &'a Vec<(String, String)>, name: &str) -> (r: Option<&'a String>)
    ensures
        match r {
            Some(v) => value_in(variables(env@), name@) == Some(v@),
            None => value_in(variables(env@), name@) is None,
        },
{
    let wanted = String::from_str(name);
    let ghost all = variables(env@);
    let mut i: usize = 0;
    assert(all.skip(0) == all);
    while i < env.len()
        invariant
            i <= env.len(),
            wanted@ == name@,
            all == variables(env@),
            value_in(all, name@) == value_in(all.skip(i as int), name@),
        decreases env.len() - i,
    {
        let ghost rest = all.skip(i as int);
        assert(rest.drop_first() == all.skip(i + 1));
        if env[i].0 == wanted {
            return Some(&env[i].1);
        }
        i += 1;
    }
    None
}

/// Fills the variables of `env` into `input`: every `${NAME}` is replaced
/// by the value of `NAME`.
pub fn substitute_vars(input: &str, env: &Vec<(String, String)>) -> (r: Result<
    String,
    TemplateError,
>)
    ensures
        match r {
            Ok(s) => substituted(input@, variables(env@)) == Ok::<Seq<char>, TemplateErrorView>(
                s@,
            ),
            Err(e) => substituted(input@, variables(env@)) == Err::<Seq<char>, TemplateErrorView>(
                e@,
            ),
        },
{
    let chars = chars_of(input);
    let len = chars.len();
    let ghost s = input@;
    let ghost vars = variables(env@);
    let mut out = String::new();
    let mut pos: usize = 0;
    assert(s.skip(0) == s);
    loop
        invariant
            pos <= len == chars.len(),
            chars@ == s,
            s == input@,
            vars == variables(env@),
            match substituted(s.skip(pos as int), vars) {
                Ok(t) => substituted(s, vars) == Ok::<Seq<char>, TemplateErrorView>(out@ + t),
                Err(e) => substituted(s, vars) == Err::<Seq<char>, TemplateErrorView>(e),
            },
        decreases len - pos,
    {
        let ghost tail = s.skip(pos as int);
        let mut i: usize = pos;
        while i < len && !(i + 1 < len && chars[i] == '$' && chars[i + 1] == '{')
            invariant
                pos <= i <= len == chars.len(),
                chars@ == s,
                tail == s.skip(pos as int),
                forall|k: int| 0 <= k < i - pos ==> !opens_at(tail, k),
            decreases len - i,
        {
            i += 1;
        }
        proof {
            lemma_opening(tail, i - pos);
        }
        if i >= len {
            out.append(input.substring_char(pos, len));
            return Ok(out);
        }
        let ghost rest = tail.skip(i - pos + 2);
        let mut j: usize = i + 2;
        while j < len && chars[j] != '}'
            invariant
                i + 2 <= j <= len == chars.len(),
                chars@ == s,
                rest == s.skip(i + 2),
                forall|k: int| 0 <= k < j - (i + 2) ==> rest[k] != '}',
            decreases len - j,
        {
            j += 1;
        }
        proof {
            lemma_first_index(rest, '}', j - (i + 2));
        }
        if j >= len {
            return Err(TemplateError::Unterminated);
        }
        let name = input.substring_char(i + 2, j);
        assert(name@ == rest.take(j - (i + 2)));
        match lookup(env, name) {
            None => {
                return Err(TemplateError::Undefined(String::from_str(name)));
            },
            Some(v) => {
                let ghost before = out@;
                out.append(input.substring_char(pos, i));
                out.append(v.as_str());
                proof {
                    assert(rest.skip(j - (i + 2) + 1) == s.skip(j + 1));
                    match substituted(s.skip(j + 1), vars) {
                        Ok(t) => {
                            assert(out@ + t == before + (tail.take(i - pos) + v@ + t));
                        },
                        Err(_) => {},
                    }
                }
                pos = j + 1;
            },
        }
    }
}

/// The value of the last property called `api`.
pub open spec fn last_api(properties: Seq<(Seq<char>, Seq<char>)>) -> Option<Seq<char>>
    decreases properties.len(),
{
    if properties.len() == 0 {
        None
    } else if properties.last().0 == "api"@ {
        Some(properties.last().1)
    } else {
        last_api(properties.drop_last())
    }
}

/// What the tool keeps of its configuration file: the address of the
/// server's API.
#[derive(Debug, Clone, PartialEq, Eq)]
pub struct ShushConfig {
    api: Option<String>,
}

impl ShushConfig {
    /// The address of the API as the file spells it.
    pub closed spec fn api(&self) -> Option<Seq<char>> {
        match self.api {
            Some(a) => Some(a@),
            None => None,
        }
    }

    /// What `get` answers for `key`: the `api` address with the variables
    /// of `env` filled in, and nothing for any other key.
    pub open spec fn value(&self, key: Seq<char>, env: Seq<(Seq<char>, Seq<char>)>) -> Result<
        Option<Seq<char>>,
        TemplateErrorView,
    > {
        if key == "api"@ {
            match self.api() {
                Some(a) => match substituted(a, env) {
                    Ok(v) => Ok(Some(v)),
                    Err(e) => Err(e),
                },
                None => Ok(None),
            }
        } else {
            Ok(None)
        }
    }

    /// Keeps what the tool needs of the properties of a configuration
    /// file, whatever their sections: the last one called `api`.
    pub fn new(properties: &Vec<(String, String)>) -> (c: Self)
        ensures
            c.api() == last_api(variables(properties@)),
    {
        let name = String::from_str("api");
        let ghost all = variables(properties@);
        let mut i: usize = properties.len();
        assert(all.take(i as int) == all);
        while i > 0
            invariant
                i <= properties.len(),
                name@ == "api"@,
                all == variables(properties@),
                last_api(all) == last_api(all.take(i as int)),
            decreases i,
        {
            let ghost seen = all.take(i as int);
            assert(seen.drop_last() == all.take(i - 1));
            if properties[i - 1].0 == name {
                return ShushConfig { api: Some(properties[i - 1].1.clone()) };
            }
            i -= 1;
        }
        ShushConfig { api: None }
    }

    /// The value of `key` with the variables of `env` filled in; `None`
    /// where the configuration has no such key.
    pub fn get(&self, key: &str, env: &Vec<(String, String)>) -> (r: Result<
        Option<String>,
        TemplateError,
    >)
        ensures
            match r {
                Ok(Some(v)) => self.value(key@, variables(env@)) == Ok::<
                    Option<Seq<char>>,
                    TemplateErrorView,
                >(Some(v@)),
                Ok(None) => self.value(key@, variables(env@)) == Ok::<
                    Option<Seq<char>>,
                    TemplateErrorView,
                >(None),
                Err(e) => self.value(key@, variables(env@)) == Err::<
                    Option<Seq<char>>,
                    TemplateErrorView,
                >(e@),
            },
    {
        if !(String::from_str(key) == String::from_str("api")) {
            return Ok(None);
        }
        match &self.api {
            Some(a) => match substitute_vars(a.as_str(), env) {
                Ok(v) => Ok(Some(v)),
                Err(e) => Err(e),
            },
            None => Ok(None),
        }
    }
}

/// The path of the system-wide configuration file.
pub open spec fn system_path() -> Seq<char> {
    "/etc/shush/shush.conf"@
}

/// The path of the operator's own configuration file, under the home
/// directory, or under `~` where that is unknown.
pub open spec fn home_path(home: Option<Seq<char>>) -> Seq<char> {
    (match home {
        Some(h) => h,
        None => "~"@,
    }) + "/.shush/shush.conf"@
}

/// The path of the operator's own configuration file.
pub fn home_config(home: Option<&str>) -> (s: String)
    ensures
        s@ == home_path(
            match home {
                Some(h) => Some(h@),
                None => None,
            },
        ),
{
    let mut s = match home {
        Some(h) => String::from_str(h),
        None => String::from_str("~"),
    };
    s.append("/.shush/shush.conf");
    s
}

/// The configuration file to read: the one that was asked for where it is
/// a file, else the system-wide one where it is a file, else the
/// operator's own where it is a file; `None` where none is.
pub fn choose_path(
    given: Option<String>,
    given_is_file: bool,
    system_is_file: bool,
    home: String,
    home_is_file: bool,
) -> (r: Option<String>)
    ensures
        given is Some && given_is_file ==> r == given,
        !(given is Some && given_is_file) && system_is_file ==> (r matches Some(p) && p@
            == system_path()),
        !(given is Some && given_is_file) && !system_is_file && home_is_file ==> r == Some(home),
        !(given is Some && given_is_file) && !system_is_file && !home_is_file ==> r is None,
{
    if given.is_some() && given_is_file {
        given
    } else if system_is_file {
        Some(String::from_str("/etc/shush/shush.conf"))
    } else if home_is_file {
        Some(home)
    } else {
        None
    }
}

} // verus!
