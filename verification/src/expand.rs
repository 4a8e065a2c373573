use vstd::prelude::*;

use crate::error::DerpyError;
use crate::strmap::StringMap;
use crate::{VcsCommand, VcsCommandList};

verus! {

/// What strfmt::strfmt returns for one token and one macro table: the token
/// with every placeholder substituted, or nothing when substitution fails.
/// The result depends on the token and the table alone.
pub uninterp spec fn strfmt_result(token: Seq<char>, macros: Map<Seq<char>, Seq<char>>) -> Option<
    Seq<char>,
>;

pub open spec fn token_expands(token: Seq<char>, macros: Map<Seq<char>, Seq<char>>) -> bool {
    strfmt_result(token, macros) is Some
}

pub open spec fn expanded_token(token: Seq<char>, macros: Map<Seq<char>, Seq<char>>) -> Seq<char> {
    strfmt_result(token, macros)->0
}

pub open spec fn cmd_expands(cmd: Seq<Seq<char>>, macros: Map<Seq<char>, Seq<char>>) -> bool {
    forall|i: int| 0 <= i < cmd.len() ==> token_expands(cmd[i], macros)
}

/// The command with every token's placeholders substituted, token order kept.
pub open spec fn expand_cmd_spec(cmd: Seq<Seq<char>>, macros: Map<Seq<char>, Seq<char>>) -> Seq<
    Seq<char>,
> {
    Seq::new(cmd.len(), |i: int| expanded_token(cmd[i], macros))
}

pub open spec fn list_expands(
    list: Seq<Seq<Seq<char>>>,
    macros: Map<Seq<char>, Seq<char>>,
) -> bool {
    forall|i: int| 0 <= i < list.len() ==> cmd_expands(list[i], macros)
}

pub open spec fn expand_list_spec(
    list: Seq<Seq<Seq<char>>>,
    macros: Map<Seq<char>, Seq<char>>,
) -> Seq<Seq<Seq<char>>> {
    Seq::new(list.len(), |i: int| expand_cmd_spec(list[i], macros))
}

/// The token at `i` is the first of `cmd` that does not expand.
pub open spec fn first_failing_token(
    cmd: Seq<Seq<char>>,
    macros: Map<Seq<char>, Seq<char>>,
    i: int,
) -> bool {
    &&& 0 <= i < cmd.len()
    &&& !token_expands(cmd[i], macros)
    &&& forall|j: int| 0 <= j < i ==> token_expands(cmd[j], macros)
}

/// The command at `i` is the first of `list` that does not expand whole.
pub open spec fn first_failing_cmd(
    list: Seq<Seq<Seq<char>>>,
    macros: Map<Seq<char>, Seq<char>>,
    i: int,
) -> bool {
    &&& 0 <= i < list.len()
    &&& !cmd_expands(list[i], macros)
    &&& forall|j: int| 0 <= j < i ==> cmd_expands(list[j], macros)
}

/// `e` reports `source` as the offending token, together with the macro
/// table it was resolved against.
pub open spec fn is_expansion_failure(
    e: DerpyError,
    source: Seq<char>,
    macros: Map<Seq<char>, Seq<char>>,
) -> bool {
    match e {
        DerpyError::MacroExpansionFailure { source_text, macros: table, detail: _ } => {
            source_text@ == source && table@ == macros
        },
        _ => false,
    }
}

/// Relies on strfmt::strfmt: substitutes every `{name}` placeholder in
/// `token` with the table's entry for `name`, and fails when a referenced
/// name is absent from the table or the token is malformed. Its result is a
/// function of the token and the table alone; `strfmt_result` names it.
#[verifier::external_body]
fn strfmt_token(token: &str, macros: &StringMap) -> (r: Result<String, String>)
    ensures
        r is Ok <==> strfmt_result(token@, macros@) is Some,
        r is Ok ==> r->Ok_0@ == strfmt_result(token@, macros@)->0,
{
    let mut vars: std::collections::HashMap<String, String> = std::collections::HashMap::new();
    for (k, v) in macros.pairs.iter() {
        vars.insert(k.clone(), v.clone());
    }
    match strfmt::strfmt(token, &vars) {
        Ok(s) => Ok(s),
        Err(e) => Err(format!("{}", e)),
    }
}

/// Substitutes macros in every token of one command. Total and
/// order-preserving: when every token resolves, the result has the expanded
/// tokens in the original order; otherwise the first token that does not
/// resolve is reported, with the full macro table.
pub fn expand_vcs_command(cmd: &VcsCommand, macros: &StringMap) -> (r: Result<
    VcsCommand,
    DerpyError,
>)
    ensures
        cmd_expands(cmd.deep_view(), macros@) ==> r is Ok && r->Ok_0.deep_view()
            == expand_cmd_spec(cmd.deep_view(), macros@),
        !cmd_expands(cmd.deep_view(), macros@) ==> r is Err && exists|i: int|
            first_failing_token(cmd.deep_view(), macros@, i) && is_expansion_failure(
                r->Err_0,
                cmd.deep_view()[i],
                macros@,
            ),
{
    let mut result: VcsCommand = Vec::new();
    let n = cmd.len();
    for idx in 0..n
        invariant
            n == cmd@.len(),
            result@.len() == idx,
            forall|j: int| 0 <= j < idx ==> token_expands(cmd@[j]@, macros@),
            forall|j: int| 0 <= j < idx ==> result@[j]@ == expanded_token(cmd@[j]@, macros@),
    {
        match strfmt_token(cmd[idx].as_str(), macros) {
            Ok(expanded) => {
                result.push(expanded);
            },
            Err(detail) => {
                proof {
                    assert(first_failing_token(cmd.deep_view(), macros@, idx as int));
                }
                return Err(DerpyError::MacroExpansionFailure {
                    source_text: cmd[idx].clone(),
                    macros: macros.duplicate(),
                    detail,
                });
            },
        }
    }
    proof {
        assert(result.deep_view() =~= expand_cmd_spec(cmd.deep_view(), macros@));
    }
    Ok(result)
}

/// Substitutes macros in every command of a list, command order kept; the
/// first token anywhere that does not resolve aborts the whole expansion.
pub fn expand_vcs_command_list(list: &VcsCommandList, macros: &StringMap) -> (r: Result<
    VcsCommandList,
    DerpyError,
>)
    ensures
        list_expands(list.deep_view(), macros@) ==> r is Ok && r->Ok_0.deep_view()
            == expand_list_spec(list.deep_view(), macros@),
        !list_expands(list.deep_view(), macros@) ==> r is Err && exists|ci: int, ti: int|
            first_failing_cmd(list.deep_view(), macros@, ci) && first_failing_token(
                list.deep_view()[ci],
                macros@,
                ti,
            ) && is_expansion_failure(r->Err_0, list.deep_view()[ci][ti], macros@),
{
    let mut result: VcsCommandList = Vec::new();
    let n = list.len();
    for idx in 0..n
        invariant
            n == list@.len(),
            result@.len() == idx,
            forall|j: int| 0 <= j < idx ==> cmd_expands(list@[j].deep_view(), macros@),
            forall|j: int| 0 <= j < idx ==> result@[j].deep_view() == expand_cmd_spec(
                list@[j].deep_view(),
                macros@,
            ),
    {
        match expand_vcs_command(&list[idx], macros) {
            Ok(expanded) => {
                result.push(expanded);
            },
            Err(e) => {
                proof {
                    assert(first_failing_cmd(list.deep_view(), macros@, idx as int));
                }
                return Err(e);
            },
        }
    }
    proof {
        assert(result.deep_view() =~= expand_list_spec(list.deep_view(), macros@));
    }
    Ok(result)
}

} // verus!
