//! The built-in catalogue of framework error codes.
use vstd::prelude::*;
use crate::error::{GrassError, error_code, code_domain, code_tag, tag_domain, index_of_char};
use crate::error_table::{GrassErrorTable, GrassErrorEntry, GrassErrorEntryView, GrassErrorSeverity,
    find_entry, lemma_register_then_lookup, lemma_insert_by_code_at,
    lemma_find_entry_some};
use crate::text::{chars_lt, lemma_chars_lt_at, lemma_chars_lt_irreflexive, lemma_chars_lt_transitive};

verus! {

/// Every entry's domain is the one that its code names.
pub open spec fn domains_match_codes(s: Seq<GrassErrorEntryView>) -> bool {
    forall|x: GrassErrorEntryView| #[trigger] s.contains(x) ==> x.domain == code_domain(x.code)
}

/// The texts of a list of string slices.
pub open spec fn str_texts(xs: Seq<&str>) -> Seq<Seq<char>> {
    xs.map_values(|s: &str| s@)
}

/// The entry with these fields.
pub open spec fn builtin(
    code: &str,
    domain: &str,
    module: &str,
    severity: GrassErrorSeverity,
    message: &str,
    causes: Seq<&str>,
    fixes: Seq<&str>,
) -> GrassErrorEntryView {
    GrassErrorEntryView {
        code: code@,
        domain: domain@,
        module: module@,
        severity,
        message: message@,
        causes: str_texts(causes),
        remediation: str_texts(fixes),
    }
}

proof fn lemma_tag_core()
    ensures
        tag_domain("CORE"@) == "core"@,
{
    reveal_strlit("CORE");
}

proof fn lemma_tag_runtime()
    ensures
        tag_domain("RUNTIME"@) == "runtime"@,
{
    reveal_strlit("RUNTIME");
    reveal_strlit("CORE");
    assert("RUNTIME"@.len() != "CORE"@.len());
}

proof fn lemma_tag_llm()
    ensures
        tag_domain("LLM"@) == "llm"@,
{
    reveal_strlit("LLM");
    reveal_strlit("CORE");
    assert("LLM"@.len() != "CORE"@.len());
    reveal_strlit("RUNTIME");
    assert("LLM"@.len() != "RUNTIME"@.len());
}

proof fn lemma_tag_hooks()
    ensures
        tag_domain("HOOKS"@) == "hooks"@,
{
    reveal_strlit("HOOKS");
    reveal_strlit("CORE");
    assert("HOOKS"@.len() != "CORE"@.len());
    reveal_strlit("RUNTIME");
    assert("HOOKS"@.len() != "RUNTIME"@.len());
    reveal_strlit("LLM");
    assert("HOOKS"@.len() != "LLM"@.len());
}

proof fn lemma_tag_proto()
    ensures
        tag_domain("PROTO"@) == "protocol"@,
{
    reveal_strlit("PROTO");
    reveal_strlit("CORE");
    assert("PROTO"@.len() != "CORE"@.len());
    reveal_strlit("RUNTIME");
    assert("PROTO"@.len() != "RUNTIME"@.len());
    reveal_strlit("LLM");
    assert("PROTO"@.len() != "LLM"@.len());
    reveal_strlit("HOOKS");
    assert("PROTO"@[0] != "HOOKS"@[0]);
}

proof fn lemma_tag_ipc()
    ensures
        tag_domain("IPC"@) == "ipc"@,
{
    reveal_strlit("IPC");
    reveal_strlit("CORE");
    assert("IPC"@.len() != "CORE"@.len());
    reveal_strlit("RUNTIME");
    assert("IPC"@.len() != "RUNTIME"@.len());
    reveal_strlit("LLM");
    assert("IPC"@[0] != "LLM"@[0]);
    reveal_strlit("HOOKS");
    assert("IPC"@.len() != "HOOKS"@.len());
    reveal_strlit("PROTO");
    assert("IPC"@.len() != "PROTO"@.len());
}

proof fn lemma_tag_sandbox()
    ensures
        tag_domain("SANDBOX"@) == "sandbox"@,
{
    reveal_strlit("SANDBOX");
    reveal_strlit("CORE");
    assert("SANDBOX"@.len() != "CORE"@.len());
    reveal_strlit("RUNTIME");
    assert("SANDBOX"@[0] != "RUNTIME"@[0]);
    reveal_strlit("LLM");
    assert("SANDBOX"@.len() != "LLM"@.len());
    reveal_strlit("HOOKS");
    assert("SANDBOX"@.len() != "HOOKS"@.len());
    reveal_strlit("PROTO");
    assert("SANDBOX"@.len() != "PROTO"@.len());
    reveal_strlit("IPC");
    assert("SANDBOX"@.len() != "IPC"@.len());
}

proof fn lemma_tag_plugin()
    ensures
        tag_domain("PLUGIN"@) == "plugin"@,
{
    reveal_strlit("PLUGIN");
    reveal_strlit("CORE");
    assert("PLUGIN"@.len() != "CORE"@.len());
    reveal_strlit("RUNTIME");
    assert("PLUGIN"@.len() != "RUNTIME"@.len());
    reveal_strlit("LLM");
    assert("PLUGIN"@.len() != "LLM"@.len());
    reveal_strlit("HOOKS");
    assert("PLUGIN"@.len() != "HOOKS"@.len());
    reveal_strlit("PROTO");
    assert("PLUGIN"@.len() != "PROTO"@.len());
    reveal_strlit("IPC");
    assert("PLUGIN"@.len() != "IPC"@.len());
    reveal_strlit("SANDBOX");
    assert("PLUGIN"@.len() != "SANDBOX"@.len());
}

proof fn lemma_tag_inf()
    ensures
        tag_domain("INF"@) == "inference"@,
{
    reveal_strlit("INF");
    reveal_strlit("CORE");
    assert("INF"@.len() != "CORE"@.len());
    reveal_strlit("RUNTIME");
    assert("INF"@.len() != "RUNTIME"@.len());
    reveal_strlit("LLM");
    assert("INF"@[0] != "LLM"@[0]);
    reveal_strlit("HOOKS");
    assert("INF"@.len() != "HOOKS"@.len());
    reveal_strlit("PROTO");
    assert("INF"@.len() != "PROTO"@.len());
    reveal_strlit("IPC");
    assert("INF"@[1] != "IPC"@[1]);
    reveal_strlit("SANDBOX");
    assert("INF"@.len() != "SANDBOX"@.len());
    reveal_strlit("PLUGIN");
    assert("INF"@.len() != "PLUGIN"@.len());
}

proof fn lemma_tag_iot()
    ensures
        tag_domain("IOT"@) == "iot"@,
{
    reveal_strlit("IOT");
    reveal_strlit("CORE");
    assert("IOT"@.len() != "CORE"@.len());
    reveal_strlit("RUNTIME");
    assert("IOT"@.len() != "RUNTIME"@.len());
    reveal_strlit("LLM");
    assert("IOT"@[0] != "LLM"@[0]);
    reveal_strlit("HOOKS");
    assert("IOT"@.len() != "HOOKS"@.len());
    reveal_strlit("PROTO");
    assert("IOT"@.len() != "PROTO"@.len());
    reveal_strlit("IPC");
    assert("IOT"@[1] != "IPC"@[1]);
    reveal_strlit("SANDBOX");
    assert("IOT"@.len() != "SANDBOX"@.len());
    reveal_strlit("PLUGIN");
    assert("IOT"@.len() != "PLUGIN"@.len());
    reveal_strlit("INF");
    assert("IOT"@[1] != "INF"@[1]);
}

proof fn lemma_tag_stream()
    ensures
        tag_domain("STREAM"@) == "streaming"@,
{
    reveal_strlit("STREAM");
    reveal_strlit("CORE");
    assert("STREAM"@.len() != "CORE"@.len());
    reveal_strlit("RUNTIME");
    assert("STREAM"@.len() != "RUNTIME"@.len());
    reveal_strlit("LLM");
    assert("STREAM"@.len() != "LLM"@.len());
    reveal_strlit("HOOKS");
    assert("STREAM"@.len() != "HOOKS"@.len());
    reveal_strlit("PROTO");
    assert("STREAM"@.len() != "PROTO"@.len());
    reveal_strlit("IPC");
    assert("STREAM"@.len() != "IPC"@.len());
    reveal_strlit("SANDBOX");
    assert("STREAM"@.len() != "SANDBOX"@.len());
    reveal_strlit("PLUGIN");
    assert("STREAM"@[0] != "PLUGIN"@[0]);
    reveal_strlit("INF");
    assert("STREAM"@.len() != "INF"@.len());
    reveal_strlit("IOT");
    assert("STREAM"@.len() != "IOT"@.len());
}

proof fn lemma_tag_vec()
    ensures
        tag_domain("VEC"@) == "vector"@,
{
    reveal_strlit("VEC");
    reveal_strlit("CORE");
    assert("VEC"@.len() != "CORE"@.len());
    reveal_strlit("RUNTIME");
    assert("VEC"@.len() != "RUNTIME"@.len());
    reveal_strlit("LLM");
    assert("VEC"@[0] != "LLM"@[0]);
    reveal_strlit("HOOKS");
    assert("VEC"@.len() != "HOOKS"@.len());
    reveal_strlit("PROTO");
    assert("VEC"@.len() != "PROTO"@.len());
    reveal_strlit("IPC");
    assert("VEC"@[0] != "IPC"@[0]);
    reveal_strlit("SANDBOX");
    assert("VEC"@.len() != "SANDBOX"@.len());
    reveal_strlit("PLUGIN");
    assert("VEC"@.len() != "PLUGIN"@.len());
    reveal_strlit("INF");
    assert("VEC"@[0] != "INF"@[0]);
    reveal_strlit("IOT");
    assert("VEC"@[0] != "IOT"@[0]);
    reveal_strlit("STREAM");
    assert("VEC"@.len() != "STREAM"@.len());
}

proof fn lemma_tag_bc()
    ensures
        tag_domain("BC"@) == "blockchain"@,
{
    reveal_strlit("BC");
    reveal_strlit("CORE");
    assert("BC"@.len() != "CORE"@.len());
    reveal_strlit("RUNTIME");
    assert("BC"@.len() != "RUNTIME"@.len());
    reveal_strlit("LLM");
    assert("BC"@.len() != "LLM"@.len());
    reveal_strlit("HOOKS");
    assert("BC"@.len() != "HOOKS"@.len());
    reveal_strlit("PROTO");
    assert("BC"@.len() != "PROTO"@.len());
    reveal_strlit("IPC");
    assert("BC"@.len() != "IPC"@.len());
    reveal_strlit("SANDBOX");
    assert("BC"@.len() != "SANDBOX"@.len());
    reveal_strlit("PLUGIN");
    assert("BC"@.len() != "PLUGIN"@.len());
    reveal_strlit("INF");
    assert("BC"@.len() != "INF"@.len());
    reveal_strlit("IOT");
    assert("BC"@.len() != "IOT"@.len());
    reveal_strlit("STREAM");
    assert("BC"@.len() != "STREAM"@.len());
    reveal_strlit("VEC");
    assert("BC"@.len() != "VEC"@.len());
}

proof fn lemma_tag_int()
    ensures
        tag_domain("INT"@) == "integrations"@,
{
    reveal_strlit("INT");
    reveal_strlit("CORE");
    assert("INT"@.len() != "CORE"@.len());
    reveal_strlit("RUNTIME");
    assert("INT"@.len() != "RUNTIME"@.len());
    reveal_strlit("LLM");
    assert("INT"@[0] != "LLM"@[0]);
    reveal_strlit("HOOKS");
    assert("INT"@.len() != "HOOKS"@.len());
    reveal_strlit("PROTO");
    assert("INT"@.len() != "PROTO"@.len());
    reveal_strlit("IPC");
    assert("INT"@[1] != "IPC"@[1]);
    reveal_strlit("SANDBOX");
    assert("INT"@.len() != "SANDBOX"@.len());
    reveal_strlit("PLUGIN");
    assert("INT"@.len() != "PLUGIN"@.len());
    reveal_strlit("INF");
    assert("INT"@[2] != "INF"@[2]);
    reveal_strlit("IOT");
    assert("INT"@[1] != "IOT"@[1]);
    reveal_strlit("STREAM");
    assert("INT"@.len() != "STREAM"@.len());
    reveal_strlit("VEC");
    assert("INT"@[0] != "VEC"@[0]);
    reveal_strlit("BC");
    assert("INT"@.len() != "BC"@.len());
}

proof fn lemma_tag_flow()
    ensures
        tag_domain("FLOW"@) == "flow"@,
{
    reveal_strlit("FLOW");
    reveal_strlit("CORE");
    assert("FLOW"@[0] != "CORE"@[0]);
    reveal_strlit("RUNTIME");
    assert("FLOW"@.len() != "RUNTIME"@.len());
    reveal_strlit("LLM");
    assert("FLOW"@.len() != "LLM"@.len());
    reveal_strlit("HOOKS");
    assert("FLOW"@.len() != "HOOKS"@.len());
    reveal_strlit("PROTO");
    assert("FLOW"@.len() != "PROTO"@.len());
    reveal_strlit("IPC");
    assert("FLOW"@.len() != "IPC"@.len());
    reveal_strlit("SANDBOX");
    assert("FLOW"@.len() != "SANDBOX"@.len());
    reveal_strlit("PLUGIN");
    assert("FLOW"@.len() != "PLUGIN"@.len());
    reveal_strlit("INF");
    assert("FLOW"@.len() != "INF"@.len());
    reveal_strlit("IOT");
    assert("FLOW"@.len() != "IOT"@.len());
    reveal_strlit("STREAM");
    assert("FLOW"@.len() != "STREAM"@.len());
    reveal_strlit("VEC");
    assert("FLOW"@.len() != "VEC"@.len());
    reveal_strlit("BC");
    assert("FLOW"@.len() != "BC"@.len());
    reveal_strlit("INT");
    assert("FLOW"@.len() != "INT"@.len());
}

proof fn lemma_tag_msg()
    ensures
        tag_domain("MSG"@) == "messaging"@,
{
    reveal_strlit("MSG");
    reveal_strlit("CORE");
    assert("MSG"@.len() != "CORE"@.len());
    reveal_strlit("RUNTIME");
    assert("MSG"@.len() != "RUNTIME"@.len());
    reveal_strlit("LLM");
    assert("MSG"@[0] != "LLM"@[0]);
    reveal_strlit("HOOKS");
    assert("MSG"@.len() != "HOOKS"@.len());
    reveal_strlit("PROTO");
    assert("MSG"@.len() != "PROTO"@.len());
    reveal_strlit("IPC");
    assert("MSG"@[0] != "IPC"@[0]);
    reveal_strlit("SANDBOX");
    assert("MSG"@.len() != "SANDBOX"@.len());
    reveal_strlit("PLUGIN");
    assert("MSG"@.len() != "PLUGIN"@.len());
    reveal_strlit("INF");
    assert("MSG"@[0] != "INF"@[0]);
    reveal_strlit("IOT");
    assert("MSG"@[0] != "IOT"@[0]);
    reveal_strlit("STREAM");
    assert("MSG"@.len() != "STREAM"@.len());
    reveal_strlit("VEC");
    assert("MSG"@[0] != "VEC"@[0]);
    reveal_strlit("BC");
    assert("MSG"@.len() != "BC"@.len());
    reveal_strlit("INT");
    assert("MSG"@[0] != "INT"@[0]);
    reveal_strlit("FLOW");
    assert("MSG"@.len() != "FLOW"@.len());
}

proof fn lemma_tag_orch()
    ensures
        tag_domain("ORCH"@) == "orchestrator"@,
{
    reveal_strlit("ORCH");
    reveal_strlit("CORE");
    assert("ORCH"@[0] != "CORE"@[0]);
    reveal_strlit("RUNTIME");
    assert("ORCH"@.len() != "RUNTIME"@.len());
    reveal_strlit("LLM");
    assert("ORCH"@.len() != "LLM"@.len());
    reveal_strlit("HOOKS");
    assert("ORCH"@.len() != "HOOKS"@.len());
    reveal_strlit("PROTO");
    assert("ORCH"@.len() != "PROTO"@.len());
    reveal_strlit("IPC");
    assert("ORCH"@.len() != "IPC"@.len());
    reveal_strlit("SANDBOX");
    assert("ORCH"@.len() != "SANDBOX"@.len());
    reveal_strlit("PLUGIN");
    assert("ORCH"@.len() != "PLUGIN"@.len());
    reveal_strlit("INF");
    assert("ORCH"@.len() != "INF"@.len());
    reveal_strlit("IOT");
    assert("ORCH"@.len() != "IOT"@.len());
    reveal_strlit("STREAM");
    assert("ORCH"@.len() != "STREAM"@.len());
    reveal_strlit("VEC");
    assert("ORCH"@.len() != "VEC"@.len());
    reveal_strlit("BC");
    assert("ORCH"@.len() != "BC"@.len());
    reveal_strlit("INT");
    assert("ORCH"@.len() != "INT"@.len());
    reveal_strlit("FLOW");
    assert("ORCH"@[0] != "FLOW"@[0]);
    reveal_strlit("MSG");
    assert("ORCH"@.len() != "MSG"@.len());
}

proof fn lemma_tag_bin()
    ensures
        tag_domain("BIN"@) == "binary"@,
{
    reveal_strlit("BIN");
    reveal_strlit("CORE");
    assert("BIN"@.len() != "CORE"@.len());
    reveal_strlit("RUNTIME");
    assert("BIN"@.len() != "RUNTIME"@.len());
    reveal_strlit("LLM");
    assert("BIN"@[0] != "LLM"@[0]);
    reveal_strlit("HOOKS");
    assert("BIN"@.len() != "HOOKS"@.len());
    reveal_strlit("PROTO");
    assert("BIN"@.len() != "PROTO"@.len());
    reveal_strlit("IPC");
    assert("BIN"@[0] != "IPC"@[0]);
    reveal_strlit("SANDBOX");
    assert("BIN"@.len() != "SANDBOX"@.len());
    reveal_strlit("PLUGIN");
    assert("BIN"@.len() != "PLUGIN"@.len());
    reveal_strlit("INF");
    assert("BIN"@[0] != "INF"@[0]);
    reveal_strlit("IOT");
    assert("BIN"@[0] != "IOT"@[0]);
    reveal_strlit("STREAM");
    assert("BIN"@.len() != "STREAM"@.len());
    reveal_strlit("VEC");
    assert("BIN"@[0] != "VEC"@[0]);
    reveal_strlit("BC");
    assert("BIN"@.len() != "BC"@.len());
    reveal_strlit("INT");
    assert("BIN"@[0] != "INT"@[0]);
    reveal_strlit("FLOW");
    assert("BIN"@.len() != "FLOW"@.len());
    reveal_strlit("MSG");
    assert("BIN"@[0] != "MSG"@[0]);
    reveal_strlit("ORCH");
    assert("BIN"@.len() != "ORCH"@.len());
}

proof fn lemma_code_gr_bc_0001()
    ensures
        code_domain("GR-BC-0001"@) == "blockchain"@,
{
    reveal_strlit("GR-BC-0001");
    reveal_strlit("BC");
    assert(code_tag("GR-BC-0001"@) == Some("BC"@)) by {
        reveal_with_fuel(index_of_char, 4);
        assert("GR-BC-0001"@.skip(3) =~= seq!['B', 'C', '-', '0', '0', '0', '1']);
        assert("GR-BC-0001"@.skip(3).take(2) =~= "BC"@);
    }
    lemma_tag_bc();
}

proof fn lemma_code_gr_bc_0002()
    ensures
        code_domain("GR-BC-0002"@) == "blockchain"@,
{
    reveal_strlit("GR-BC-0002");
    reveal_strlit("BC");
    assert(code_tag("GR-BC-0002"@) == Some("BC"@)) by {
        reveal_with_fuel(index_of_char, 4);
        assert("GR-BC-0002"@.skip(3) =~= seq!['B', 'C', '-', '0', '0', '0', '2']);
        assert("GR-BC-0002"@.skip(3).take(2) =~= "BC"@);
    }
    lemma_tag_bc();
}

proof fn lemma_code_gr_bc_0003()
    ensures
        code_domain("GR-BC-0003"@) == "blockchain"@,
{
    reveal_strlit("GR-BC-0003");
    reveal_strlit("BC");
    assert(code_tag("GR-BC-0003"@) == Some("BC"@)) by {
        reveal_with_fuel(index_of_char, 4);
        assert("GR-BC-0003"@.skip(3) =~= seq!['B', 'C', '-', '0', '0', '0', '3']);
        assert("GR-BC-0003"@.skip(3).take(2) =~= "BC"@);
    }
    lemma_tag_bc();
}

proof fn lemma_code_gr_bin_0001()
    ensures
        code_domain("GR-BIN-0001"@) == "binary"@,
{
    reveal_strlit("GR-BIN-0001");
    reveal_strlit("BIN");
    assert(code_tag("GR-BIN-0001"@) == Some("BIN"@)) by {
        reveal_with_fuel(index_of_char, 5);
        assert("GR-BIN-0001"@.skip(3) =~= seq!['B', 'I', 'N', '-', '0', '0', '0', '1']);
        assert("GR-BIN-0001"@.skip(3).take(3) =~= "BIN"@);
    }
    lemma_tag_bin();
}

proof fn lemma_code_gr_bin_0002()
    ensures
        code_domain("GR-BIN-0002"@) == "binary"@,
{
    reveal_strlit("GR-BIN-0002");
    reveal_strlit("BIN");
    assert(code_tag("GR-BIN-0002"@) == Some("BIN"@)) by {
        reveal_with_fuel(index_of_char, 5);
        assert("GR-BIN-0002"@.skip(3) =~= seq!['B', 'I', 'N', '-', '0', '0', '0', '2']);
        assert("GR-BIN-0002"@.skip(3).take(3) =~= "BIN"@);
    }
    lemma_tag_bin();
}

proof fn lemma_code_gr_core_0001()
    ensures
        code_domain("GR-CORE-0001"@) == "core"@,
{
    reveal_strlit("GR-CORE-0001");
    reveal_strlit("CORE");
    assert(code_tag("GR-CORE-0001"@) == Some("CORE"@)) by {
        reveal_with_fuel(index_of_char, 6);
        assert("GR-CORE-0001"@.skip(3) =~= seq!['C', 'O', 'R', 'E', '-', '0', '0', '0', '1']);
        assert("GR-CORE-0001"@.skip(3).take(4) =~= "CORE"@);
    }
    lemma_tag_core();
}

proof fn lemma_code_gr_core_0002()
    ensures
        code_domain("GR-CORE-0002"@) == "core"@,
{
    reveal_strlit("GR-CORE-0002");
    reveal_strlit("CORE");
    assert(code_tag("GR-CORE-0002"@) == Some("CORE"@)) by {
        reveal_with_fuel(index_of_char, 6);
        assert("GR-CORE-0002"@.skip(3) =~= seq!['C', 'O', 'R', 'E', '-', '0', '0', '0', '2']);
        assert("GR-CORE-0002"@.skip(3).take(4) =~= "CORE"@);
    }
    lemma_tag_core();
}

proof fn lemma_code_gr_core_0003()
    ensures
        code_domain("GR-CORE-0003"@) == "core"@,
{
    reveal_strlit("GR-CORE-0003");
    reveal_strlit("CORE");
    assert(code_tag("GR-CORE-0003"@) == Some("CORE"@)) by {
        reveal_with_fuel(index_of_char, 6);
        assert("GR-CORE-0003"@.skip(3) =~= seq!['C', 'O', 'R', 'E', '-', '0', '0', '0', '3']);
        assert("GR-CORE-0003"@.skip(3).take(4) =~= "CORE"@);
    }
    lemma_tag_core();
}

proof fn lemma_code_gr_core_0004()
    ensures
        code_domain("GR-CORE-0004"@) == "core"@,
{
    reveal_strlit("GR-CORE-0004");
    reveal_strlit("CORE");
    assert(code_tag("GR-CORE-0004"@) == Some("CORE"@)) by {
        reveal_with_fuel(index_of_char, 6);
        assert("GR-CORE-0004"@.skip(3) =~= seq!['C', 'O', 'R', 'E', '-', '0', '0', '0', '4']);
        assert("GR-CORE-0004"@.skip(3).take(4) =~= "CORE"@);
    }
    lemma_tag_core();
}

proof fn lemma_code_gr_core_0005()
    ensures
        code_domain("GR-CORE-0005"@) == "core"@,
{
    reveal_strlit("GR-CORE-0005");
    reveal_strlit("CORE");
    assert(code_tag("GR-CORE-0005"@) == Some("CORE"@)) by {
        reveal_with_fuel(index_of_char, 6);
        assert("GR-CORE-0005"@.skip(3) =~= seq!['C', 'O', 'R', 'E', '-', '0', '0', '0', '5']);
        assert("GR-CORE-0005"@.skip(3).take(4) =~= "CORE"@);
    }
    lemma_tag_core();
}

proof fn lemma_code_gr_core_0006()
    ensures
        code_domain("GR-CORE-0006"@) == "core"@,
{
    reveal_strlit("GR-CORE-0006");
    reveal_strlit("CORE");
    assert(code_tag("GR-CORE-0006"@) == Some("CORE"@)) by {
        reveal_with_fuel(index_of_char, 6);
        assert("GR-CORE-0006"@.skip(3) =~= seq!['C', 'O', 'R', 'E', '-', '0', '0', '0', '6']);
        assert("GR-CORE-0006"@.skip(3).take(4) =~= "CORE"@);
    }
    lemma_tag_core();
}

proof fn lemma_code_gr_core_0007()
    ensures
        code_domain("GR-CORE-0007"@) == "core"@,
{
    reveal_strlit("GR-CORE-0007");
    reveal_strlit("CORE");
    assert(code_tag("GR-CORE-0007"@) == Some("CORE"@)) by {
        reveal_with_fuel(index_of_char, 6);
        assert("GR-CORE-0007"@.skip(3) =~= seq!['C', 'O', 'R', 'E', '-', '0', '0', '0', '7']);
        assert("GR-CORE-0007"@.skip(3).take(4) =~= "CORE"@);
    }
    lemma_tag_core();
}

proof fn lemma_code_gr_core_0008()
    ensures
        code_domain("GR-CORE-0008"@) == "core"@,
{
    reveal_strlit("GR-CORE-0008");
    reveal_strlit("CORE");
    assert(code_tag("GR-CORE-0008"@) == Some("CORE"@)) by {
        reveal_with_fuel(index_of_char, 6);
        assert("GR-CORE-0008"@.skip(3) =~= seq!['C', 'O', 'R', 'E', '-', '0', '0', '0', '8']);
        assert("GR-CORE-0008"@.skip(3).take(4) =~= "CORE"@);
    }
    lemma_tag_core();
}

proof fn lemma_code_gr_core_0009()
    ensures
        code_domain("GR-CORE-0009"@) == "core"@,
{
    reveal_strlit("GR-CORE-0009");
    reveal_strlit("CORE");
    assert(code_tag("GR-CORE-0009"@) == Some("CORE"@)) by {
        reveal_with_fuel(index_of_char, 6);
        assert("GR-CORE-0009"@.skip(3) =~= seq!['C', 'O', 'R', 'E', '-', '0', '0', '0', '9']);
        assert("GR-CORE-0009"@.skip(3).take(4) =~= "CORE"@);
    }
    lemma_tag_core();
}

proof fn lemma_code_gr_core_0010()
    ensures
        code_domain("GR-CORE-0010"@) == "core"@,
{
    reveal_strlit("GR-CORE-0010");
    reveal_strlit("CORE");
    assert(code_tag("GR-CORE-0010"@) == Some("CORE"@)) by {
        reveal_with_fuel(index_of_char, 6);
        assert("GR-CORE-0010"@.skip(3) =~= seq!['C', 'O', 'R', 'E', '-', '0', '0', '1', '0']);
        assert("GR-CORE-0010"@.skip(3).take(4) =~= "CORE"@);
    }
    lemma_tag_core();
}

proof fn lemma_code_gr_flow_0001()
    ensures
        code_domain("GR-FLOW-0001"@) == "flow"@,
{
    reveal_strlit("GR-FLOW-0001");
    reveal_strlit("FLOW");
    assert(code_tag("GR-FLOW-0001"@) == Some("FLOW"@)) by {
        reveal_with_fuel(index_of_char, 6);
        assert("GR-FLOW-0001"@.skip(3) =~= seq!['F', 'L', 'O', 'W', '-', '0', '0', '0', '1']);
        assert("GR-FLOW-0001"@.skip(3).take(4) =~= "FLOW"@);
    }
    lemma_tag_flow();
}

proof fn lemma_code_gr_flow_0002()
    ensures
        code_domain("GR-FLOW-0002"@) == "flow"@,
{
    reveal_strlit("GR-FLOW-0002");
    reveal_strlit("FLOW");
    assert(code_tag("GR-FLOW-0002"@) == Some("FLOW"@)) by {
        reveal_with_fuel(index_of_char, 6);
        assert("GR-FLOW-0002"@.skip(3) =~= seq!['F', 'L', 'O', 'W', '-', '0', '0', '0', '2']);
        assert("GR-FLOW-0002"@.skip(3).take(4) =~= "FLOW"@);
    }
    lemma_tag_flow();
}

proof fn lemma_code_gr_hooks_0001()
    ensures
        code_domain("GR-HOOKS-0001"@) == "hooks"@,
{
    reveal_strlit("GR-HOOKS-0001");
    reveal_strlit("HOOKS");
    assert(code_tag("GR-HOOKS-0001"@) == Some("HOOKS"@)) by {
        reveal_with_fuel(index_of_char, 7);
        assert("GR-HOOKS-0001"@.skip(3) =~= seq!['H', 'O', 'O', 'K', 'S', '-', '0', '0', '0', '1']);
        assert("GR-HOOKS-0001"@.skip(3).take(5) =~= "HOOKS"@);
    }
    lemma_tag_hooks();
}

proof fn lemma_code_gr_hooks_0002()
    ensures
        code_domain("GR-HOOKS-0002"@) == "hooks"@,
{
    reveal_strlit("GR-HOOKS-0002");
    reveal_strlit("HOOKS");
    assert(code_tag("GR-HOOKS-0002"@) == Some("HOOKS"@)) by {
        reveal_with_fuel(index_of_char, 7);
        assert("GR-HOOKS-0002"@.skip(3) =~= seq!['H', 'O', 'O', 'K', 'S', '-', '0', '0', '0', '2']);
        assert("GR-HOOKS-0002"@.skip(3).take(5) =~= "HOOKS"@);
    }
    lemma_tag_hooks();
}

proof fn lemma_code_gr_hooks_0003()
    ensures
        code_domain("GR-HOOKS-0003"@) == "hooks"@,
{
    reveal_strlit("GR-HOOKS-0003");
    reveal_strlit("HOOKS");
    assert(code_tag("GR-HOOKS-0003"@) == Some("HOOKS"@)) by {
        reveal_with_fuel(index_of_char, 7);
        assert("GR-HOOKS-0003"@.skip(3) =~= seq!['H', 'O', 'O', 'K', 'S', '-', '0', '0', '0', '3']);
        assert("GR-HOOKS-0003"@.skip(3).take(5) =~= "HOOKS"@);
    }
    lemma_tag_hooks();
}

proof fn lemma_code_gr_inf_0001()
    ensures
        code_domain("GR-INF-0001"@) == "inference"@,
{
    reveal_strlit("GR-INF-0001");
    reveal_strlit("INF");
    assert(code_tag("GR-INF-0001"@) == Some("INF"@)) by {
        reveal_with_fuel(index_of_char, 5);
        assert("GR-INF-0001"@.skip(3) =~= seq!['I', 'N', 'F', '-', '0', '0', '0', '1']);
        assert("GR-INF-0001"@.skip(3).take(3) =~= "INF"@);
    }
    lemma_tag_inf();
}

proof fn lemma_code_gr_inf_0002()
    ensures
        code_domain("GR-INF-0002"@) == "inference"@,
{
    reveal_strlit("GR-INF-0002");
    reveal_strlit("INF");
    assert(code_tag("GR-INF-0002"@) == Some("INF"@)) by {
        reveal_with_fuel(index_of_char, 5);
        assert("GR-INF-0002"@.skip(3) =~= seq!['I', 'N', 'F', '-', '0', '0', '0', '2']);
        assert("GR-INF-0002"@.skip(3).take(3) =~= "INF"@);
    }
    lemma_tag_inf();
}

proof fn lemma_code_gr_int_0001()
    ensures
        code_domain("GR-INT-0001"@) == "integrations"@,
{
    reveal_strlit("GR-INT-0001");
    reveal_strlit("INT");
    assert(code_tag("GR-INT-0001"@) == Some("INT"@)) by {
        reveal_with_fuel(index_of_char, 5);
        assert("GR-INT-0001"@.skip(3) =~= seq!['I', 'N', 'T', '-', '0', '0', '0', '1']);
        assert("GR-INT-0001"@.skip(3).take(3) =~= "INT"@);
    }
    lemma_tag_int();
}

proof fn lemma_code_gr_int_0002()
    ensures
        code_domain("GR-INT-0002"@) == "integrations"@,
{
    reveal_strlit("GR-INT-0002");
    reveal_strlit("INT");
    assert(code_tag("GR-INT-0002"@) == Some("INT"@)) by {
        reveal_with_fuel(index_of_char, 5);
        assert("GR-INT-0002"@.skip(3) =~= seq!['I', 'N', 'T', '-', '0', '0', '0', '2']);
        assert("GR-INT-0002"@.skip(3).take(3) =~= "INT"@);
    }
    lemma_tag_int();
}

proof fn lemma_code_gr_int_0003()
    ensures
        code_domain("GR-INT-0003"@) == "integrations"@,
{
    reveal_strlit("GR-INT-0003");
    reveal_strlit("INT");
    assert(code_tag("GR-INT-0003"@) == Some("INT"@)) by {
        reveal_with_fuel(index_of_char, 5);
        assert("GR-INT-0003"@.skip(3) =~= seq!['I', 'N', 'T', '-', '0', '0', '0', '3']);
        assert("GR-INT-0003"@.skip(3).take(3) =~= "INT"@);
    }
    lemma_tag_int();
}

proof fn lemma_code_gr_iot_0001()
    ensures
        code_domain("GR-IOT-0001"@) == "iot"@,
{
    reveal_strlit("GR-IOT-0001");
    reveal_strlit("IOT");
    assert(code_tag("GR-IOT-0001"@) == Some("IOT"@)) by {
        reveal_with_fuel(index_of_char, 5);
        assert("GR-IOT-0001"@.skip(3) =~= seq!['I', 'O', 'T', '-', '0', '0', '0', '1']);
        assert("GR-IOT-0001"@.skip(3).take(3) =~= "IOT"@);
    }
    lemma_tag_iot();
}

proof fn lemma_code_gr_iot_0002()
    ensures
        code_domain("GR-IOT-0002"@) == "iot"@,
{
    reveal_strlit("GR-IOT-0002");
    reveal_strlit("IOT");
    assert(code_tag("GR-IOT-0002"@) == Some("IOT"@)) by {
        reveal_with_fuel(index_of_char, 5);
        assert("GR-IOT-0002"@.skip(3) =~= seq!['I', 'O', 'T', '-', '0', '0', '0', '2']);
        assert("GR-IOT-0002"@.skip(3).take(3) =~= "IOT"@);
    }
    lemma_tag_iot();
}

proof fn lemma_code_gr_ipc_0001()
    ensures
        code_domain("GR-IPC-0001"@) == "ipc"@,
{
    reveal_strlit("GR-IPC-0001");
    reveal_strlit("IPC");
    assert(code_tag("GR-IPC-0001"@) == Some("IPC"@)) by {
        reveal_with_fuel(index_of_char, 5);
        assert("GR-IPC-0001"@.skip(3) =~= seq!['I', 'P', 'C', '-', '0', '0', '0', '1']);
        assert("GR-IPC-0001"@.skip(3).take(3) =~= "IPC"@);
    }
    lemma_tag_ipc();
}

proof fn lemma_code_gr_ipc_0002()
    ensures
        code_domain("GR-IPC-0002"@) == "ipc"@,
{
    reveal_strlit("GR-IPC-0002");
    reveal_strlit("IPC");
    assert(code_tag("GR-IPC-0002"@) == Some("IPC"@)) by {
        reveal_with_fuel(index_of_char, 5);
        assert("GR-IPC-0002"@.skip(3) =~= seq!['I', 'P', 'C', '-', '0', '0', '0', '2']);
        assert("GR-IPC-0002"@.skip(3).take(3) =~= "IPC"@);
    }
    lemma_tag_ipc();
}

proof fn lemma_code_gr_ipc_0003()
    ensures
        code_domain("GR-IPC-0003"@) == "ipc"@,
{
    reveal_strlit("GR-IPC-0003");
    reveal_strlit("IPC");
    assert(code_tag("GR-IPC-0003"@) == Some("IPC"@)) by {
        reveal_with_fuel(index_of_char, 5);
        assert("GR-IPC-0003"@.skip(3) =~= seq!['I', 'P', 'C', '-', '0', '0', '0', '3']);
        assert("GR-IPC-0003"@.skip(3).take(3) =~= "IPC"@);
    }
    lemma_tag_ipc();
}

proof fn lemma_code_gr_llm_0001()
    ensures
        code_domain("GR-LLM-0001"@) == "llm"@,
{
    reveal_strlit("GR-LLM-0001");
    reveal_strlit("LLM");
    assert(code_tag("GR-LLM-0001"@) == Some("LLM"@)) by {
        reveal_with_fuel(index_of_char, 5);
        assert("GR-LLM-0001"@.skip(3) =~= seq!['L', 'L', 'M', '-', '0', '0', '0', '1']);
        assert("GR-LLM-0001"@.skip(3).take(3) =~= "LLM"@);
    }
    lemma_tag_llm();
}

proof fn lemma_code_gr_llm_0002()
    ensures
        code_domain("GR-LLM-0002"@) == "llm"@,
{
    reveal_strlit("GR-LLM-0002");
    reveal_strlit("LLM");
    assert(code_tag("GR-LLM-0002"@) == Some("LLM"@)) by {
        reveal_with_fuel(index_of_char, 5);
        assert("GR-LLM-0002"@.skip(3) =~= seq!['L', 'L', 'M', '-', '0', '0', '0', '2']);
        assert("GR-LLM-0002"@.skip(3).take(3) =~= "LLM"@);
    }
    lemma_tag_llm();
}

proof fn lemma_code_gr_llm_0003()
    ensures
        code_domain("GR-LLM-0003"@) == "llm"@,
{
    reveal_strlit("GR-LLM-0003");
    reveal_strlit("LLM");
    assert(code_tag("GR-LLM-0003"@) == Some("LLM"@)) by {
        reveal_with_fuel(index_of_char, 5);
        assert("GR-LLM-0003"@.skip(3) =~= seq!['L', 'L', 'M', '-', '0', '0', '0', '3']);
        assert("GR-LLM-0003"@.skip(3).take(3) =~= "LLM"@);
    }
    lemma_tag_llm();
}

proof fn lemma_code_gr_llm_0004()
    ensures
        code_domain("GR-LLM-0004"@) == "llm"@,
{
    reveal_strlit("GR-LLM-0004");
    reveal_strlit("LLM");
    assert(code_tag("GR-LLM-0004"@) == Some("LLM"@)) by {
        reveal_with_fuel(index_of_char, 5);
        assert("GR-LLM-0004"@.skip(3) =~= seq!['L', 'L', 'M', '-', '0', '0', '0', '4']);
        assert("GR-LLM-0004"@.skip(3).take(3) =~= "LLM"@);
    }
    lemma_tag_llm();
}

proof fn lemma_code_gr_llm_0005()
    ensures
        code_domain("GR-LLM-0005"@) == "llm"@,
{
    reveal_strlit("GR-LLM-0005");
    reveal_strlit("LLM");
    assert(code_tag("GR-LLM-0005"@) == Some("LLM"@)) by {
        reveal_with_fuel(index_of_char, 5);
        assert("GR-LLM-0005"@.skip(3) =~= seq!['L', 'L', 'M', '-', '0', '0', '0', '5']);
        assert("GR-LLM-0005"@.skip(3).take(3) =~= "LLM"@);
    }
    lemma_tag_llm();
}

proof fn lemma_code_gr_msg_0001()
    ensures
        code_domain("GR-MSG-0001"@) == "messaging"@,
{
    reveal_strlit("GR-MSG-0001");
    reveal_strlit("MSG");
    assert(code_tag("GR-MSG-0001"@) == Some("MSG"@)) by {
        reveal_with_fuel(index_of_char, 5);
        assert("GR-MSG-0001"@.skip(3) =~= seq!['M', 'S', 'G', '-', '0', '0', '0', '1']);
        assert("GR-MSG-0001"@.skip(3).take(3) =~= "MSG"@);
    }
    lemma_tag_msg();
}

proof fn lemma_code_gr_msg_0002()
    ensures
        code_domain("GR-MSG-0002"@) == "messaging"@,
{
    reveal_strlit("GR-MSG-0002");
    reveal_strlit("MSG");
    assert(code_tag("GR-MSG-0002"@) == Some("MSG"@)) by {
        reveal_with_fuel(index_of_char, 5);
        assert("GR-MSG-0002"@.skip(3) =~= seq!['M', 'S', 'G', '-', '0', '0', '0', '2']);
        assert("GR-MSG-0002"@.skip(3).take(3) =~= "MSG"@);
    }
    lemma_tag_msg();
}

proof fn lemma_code_gr_msg_0003()
    ensures
        code_domain("GR-MSG-0003"@) == "messaging"@,
{
    reveal_strlit("GR-MSG-0003");
    reveal_strlit("MSG");
    assert(code_tag("GR-MSG-0003"@) == Some("MSG"@)) by {
        reveal_with_fuel(index_of_char, 5);
        assert("GR-MSG-0003"@.skip(3) =~= seq!['M', 'S', 'G', '-', '0', '0', '0', '3']);
        assert("GR-MSG-0003"@.skip(3).take(3) =~= "MSG"@);
    }
    lemma_tag_msg();
}

proof fn lemma_code_gr_orch_0001()
    ensures
        code_domain("GR-ORCH-0001"@) == "orchestrator"@,
{
    reveal_strlit("GR-ORCH-0001");
    reveal_strlit("ORCH");
    assert(code_tag("GR-ORCH-0001"@) == Some("ORCH"@)) by {
        reveal_with_fuel(index_of_char, 6);
        assert("GR-ORCH-0001"@.skip(3) =~= seq!['O', 'R', 'C', 'H', '-', '0', '0', '0', '1']);
        assert("GR-ORCH-0001"@.skip(3).take(4) =~= "ORCH"@);
    }
    lemma_tag_orch();
}

proof fn lemma_code_gr_orch_0002()
    ensures
        code_domain("GR-ORCH-0002"@) == "orchestrator"@,
{
    reveal_strlit("GR-ORCH-0002");
    reveal_strlit("ORCH");
    assert(code_tag("GR-ORCH-0002"@) == Some("ORCH"@)) by {
        reveal_with_fuel(index_of_char, 6);
        assert("GR-ORCH-0002"@.skip(3) =~= seq!['O', 'R', 'C', 'H', '-', '0', '0', '0', '2']);
        assert("GR-ORCH-0002"@.skip(3).take(4) =~= "ORCH"@);
    }
    lemma_tag_orch();
}

proof fn lemma_code_gr_orch_0003()
    ensures
        code_domain("GR-ORCH-0003"@) == "orchestrator"@,
{
    reveal_strlit("GR-ORCH-0003");
    reveal_strlit("ORCH");
    assert(code_tag("GR-ORCH-0003"@) == Some("ORCH"@)) by {
        reveal_with_fuel(index_of_char, 6);
        assert("GR-ORCH-0003"@.skip(3) =~= seq!['O', 'R', 'C', 'H', '-', '0', '0', '0', '3']);
        assert("GR-ORCH-0003"@.skip(3).take(4) =~= "ORCH"@);
    }
    lemma_tag_orch();
}

proof fn lemma_code_gr_plugin_0001()
    ensures
        code_domain("GR-PLUGIN-0001"@) == "plugin"@,
{
    reveal_strlit("GR-PLUGIN-0001");
    reveal_strlit("PLUGIN");
    assert(code_tag("GR-PLUGIN-0001"@) == Some("PLUGIN"@)) by {
        reveal_with_fuel(index_of_char, 8);
        assert("GR-PLUGIN-0001"@.skip(3) =~= seq!['P', 'L', 'U', 'G', 'I', 'N', '-', '0', '0', '0', '1']);
        assert("GR-PLUGIN-0001"@.skip(3).take(6) =~= "PLUGIN"@);
    }
    lemma_tag_plugin();
}

proof fn lemma_code_gr_plugin_0002()
    ensures
        code_domain("GR-PLUGIN-0002"@) == "plugin"@,
{
    reveal_strlit("GR-PLUGIN-0002");
    reveal_strlit("PLUGIN");
    assert(code_tag("GR-PLUGIN-0002"@) == Some("PLUGIN"@)) by {
        reveal_with_fuel(index_of_char, 8);
        assert("GR-PLUGIN-0002"@.skip(3) =~= seq!['P', 'L', 'U', 'G', 'I', 'N', '-', '0', '0', '0', '2']);
        assert("GR-PLUGIN-0002"@.skip(3).take(6) =~= "PLUGIN"@);
    }
    lemma_tag_plugin();
}

proof fn lemma_code_gr_plugin_0003()
    ensures
        code_domain("GR-PLUGIN-0003"@) == "plugin"@,
{
    reveal_strlit("GR-PLUGIN-0003");
    reveal_strlit("PLUGIN");
    assert(code_tag("GR-PLUGIN-0003"@) == Some("PLUGIN"@)) by {
        reveal_with_fuel(index_of_char, 8);
        assert("GR-PLUGIN-0003"@.skip(3) =~= seq!['P', 'L', 'U', 'G', 'I', 'N', '-', '0', '0', '0', '3']);
        assert("GR-PLUGIN-0003"@.skip(3).take(6) =~= "PLUGIN"@);
    }
    lemma_tag_plugin();
}

proof fn lemma_code_gr_proto_0001()
    ensures
        code_domain("GR-PROTO-0001"@) == "protocol"@,
{
    reveal_strlit("GR-PROTO-0001");
    reveal_strlit("PROTO");
    assert(code_tag("GR-PROTO-0001"@) == Some("PROTO"@)) by {
        reveal_with_fuel(index_of_char, 7);
        assert("GR-PROTO-0001"@.skip(3) =~= seq!['P', 'R', 'O', 'T', 'O', '-', '0', '0', '0', '1']);
        assert("GR-PROTO-0001"@.skip(3).take(5) =~= "PROTO"@);
    }
    lemma_tag_proto();
}

proof fn lemma_code_gr_proto_0002()
    ensures
        code_domain("GR-PROTO-0002"@) == "protocol"@,
{
    reveal_strlit("GR-PROTO-0002");
    reveal_strlit("PROTO");
    assert(code_tag("GR-PROTO-0002"@) == Some("PROTO"@)) by {
        reveal_with_fuel(index_of_char, 7);
        assert("GR-PROTO-0002"@.skip(3) =~= seq!['P', 'R', 'O', 'T', 'O', '-', '0', '0', '0', '2']);
        assert("GR-PROTO-0002"@.skip(3).take(5) =~= "PROTO"@);
    }
    lemma_tag_proto();
}

proof fn lemma_code_gr_proto_0003()
    ensures
        code_domain("GR-PROTO-0003"@) == "protocol"@,
{
    reveal_strlit("GR-PROTO-0003");
    reveal_strlit("PROTO");
    assert(code_tag("GR-PROTO-0003"@) == Some("PROTO"@)) by {
        reveal_with_fuel(index_of_char, 7);
        assert("GR-PROTO-0003"@.skip(3) =~= seq!['P', 'R', 'O', 'T', 'O', '-', '0', '0', '0', '3']);
        assert("GR-PROTO-0003"@.skip(3).take(5) =~= "PROTO"@);
    }
    lemma_tag_proto();
}

proof fn lemma_code_gr_runtime_0001()
    ensures
        code_domain("GR-RUNTIME-0001"@) == "runtime"@,
{
    reveal_strlit("GR-RUNTIME-0001");
    reveal_strlit("RUNTIME");
    assert(code_tag("GR-RUNTIME-0001"@) == Some("RUNTIME"@)) by {
        reveal_with_fuel(index_of_char, 9);
        assert("GR-RUNTIME-0001"@.skip(3) =~= seq!['R', 'U', 'N', 'T', 'I', 'M', 'E', '-', '0', '0', '0', '1']);
        assert("GR-RUNTIME-0001"@.skip(3).take(7) =~= "RUNTIME"@);
    }
    lemma_tag_runtime();
}

proof fn lemma_code_gr_runtime_0002()
    ensures
        code_domain("GR-RUNTIME-0002"@) == "runtime"@,
{
    reveal_strlit("GR-RUNTIME-0002");
    reveal_strlit("RUNTIME");
    assert(code_tag("GR-RUNTIME-0002"@) == Some("RUNTIME"@)) by {
        reveal_with_fuel(index_of_char, 9);
        assert("GR-RUNTIME-0002"@.skip(3) =~= seq!['R', 'U', 'N', 'T', 'I', 'M', 'E', '-', '0', '0', '0', '2']);
        assert("GR-RUNTIME-0002"@.skip(3).take(7) =~= "RUNTIME"@);
    }
    lemma_tag_runtime();
}

proof fn lemma_code_gr_runtime_0003()
    ensures
        code_domain("GR-RUNTIME-0003"@) == "runtime"@,
{
    reveal_strlit("GR-RUNTIME-0003");
    reveal_strlit("RUNTIME");
    assert(code_tag("GR-RUNTIME-0003"@) == Some("RUNTIME"@)) by {
        reveal_with_fuel(index_of_char, 9);
        assert("GR-RUNTIME-0003"@.skip(3) =~= seq!['R', 'U', 'N', 'T', 'I', 'M', 'E', '-', '0', '0', '0', '3']);
        assert("GR-RUNTIME-0003"@.skip(3).take(7) =~= "RUNTIME"@);
    }
    lemma_tag_runtime();
}

proof fn lemma_code_gr_sandbox_0001()
    ensures
        code_domain("GR-SANDBOX-0001"@) == "sandbox"@,
{
    reveal_strlit("GR-SANDBOX-0001");
    reveal_strlit("SANDBOX");
    assert(code_tag("GR-SANDBOX-0001"@) == Some("SANDBOX"@)) by {
        reveal_with_fuel(index_of_char, 9);
        assert("GR-SANDBOX-0001"@.skip(3) =~= seq!['S', 'A', 'N', 'D', 'B', 'O', 'X', '-', '0', '0', '0', '1']);
        assert("GR-SANDBOX-0001"@.skip(3).take(7) =~= "SANDBOX"@);
    }
    lemma_tag_sandbox();
}

proof fn lemma_code_gr_sandbox_0002()
    ensures
        code_domain("GR-SANDBOX-0002"@) == "sandbox"@,
{
    reveal_strlit("GR-SANDBOX-0002");
    reveal_strlit("SANDBOX");
    assert(code_tag("GR-SANDBOX-0002"@) == Some("SANDBOX"@)) by {
        reveal_with_fuel(index_of_char, 9);
        assert("GR-SANDBOX-0002"@.skip(3) =~= seq!['S', 'A', 'N', 'D', 'B', 'O', 'X', '-', '0', '0', '0', '2']);
        assert("GR-SANDBOX-0002"@.skip(3).take(7) =~= "SANDBOX"@);
    }
    lemma_tag_sandbox();
}

proof fn lemma_code_gr_sandbox_0003()
    ensures
        code_domain("GR-SANDBOX-0003"@) == "sandbox"@,
{
    reveal_strlit("GR-SANDBOX-0003");
    reveal_strlit("SANDBOX");
    assert(code_tag("GR-SANDBOX-0003"@) == Some("SANDBOX"@)) by {
        reveal_with_fuel(index_of_char, 9);
        assert("GR-SANDBOX-0003"@.skip(3) =~= seq!['S', 'A', 'N', 'D', 'B', 'O', 'X', '-', '0', '0', '0', '3']);
        assert("GR-SANDBOX-0003"@.skip(3).take(7) =~= "SANDBOX"@);
    }
    lemma_tag_sandbox();
}

proof fn lemma_code_gr_sandbox_0004()
    ensures
        code_domain("GR-SANDBOX-0004"@) == "sandbox"@,
{
    reveal_strlit("GR-SANDBOX-0004");
    reveal_strlit("SANDBOX");
    assert(code_tag("GR-SANDBOX-0004"@) == Some("SANDBOX"@)) by {
        reveal_with_fuel(index_of_char, 9);
        assert("GR-SANDBOX-0004"@.skip(3) =~= seq!['S', 'A', 'N', 'D', 'B', 'O', 'X', '-', '0', '0', '0', '4']);
        assert("GR-SANDBOX-0004"@.skip(3).take(7) =~= "SANDBOX"@);
    }
    lemma_tag_sandbox();
}

proof fn lemma_code_gr_stream_0001()
    ensures
        code_domain("GR-STREAM-0001"@) == "streaming"@,
{
    reveal_strlit("GR-STREAM-0001");
    reveal_strlit("STREAM");
    assert(code_tag("GR-STREAM-0001"@) == Some("STREAM"@)) by {
        reveal_with_fuel(index_of_char, 8);
        assert("GR-STREAM-0001"@.skip(3) =~= seq!['S', 'T', 'R', 'E', 'A', 'M', '-', '0', '0', '0', '1']);
        assert("GR-STREAM-0001"@.skip(3).take(6) =~= "STREAM"@);
    }
    lemma_tag_stream();
}

proof fn lemma_code_gr_stream_0002()
    ensures
        code_domain("GR-STREAM-0002"@) == "streaming"@,
{
    reveal_strlit("GR-STREAM-0002");
    reveal_strlit("STREAM");
    assert(code_tag("GR-STREAM-0002"@) == Some("STREAM"@)) by {
        reveal_with_fuel(index_of_char, 8);
        assert("GR-STREAM-0002"@.skip(3) =~= seq!['S', 'T', 'R', 'E', 'A', 'M', '-', '0', '0', '0', '2']);
        assert("GR-STREAM-0002"@.skip(3).take(6) =~= "STREAM"@);
    }
    lemma_tag_stream();
}

proof fn lemma_code_gr_vec_0001()
    ensures
        code_domain("GR-VEC-0001"@) == "vector"@,
{
    reveal_strlit("GR-VEC-0001");
    reveal_strlit("VEC");
    assert(code_tag("GR-VEC-0001"@) == Some("VEC"@)) by {
        reveal_with_fuel(index_of_char, 5);
        assert("GR-VEC-0001"@.skip(3) =~= seq!['V', 'E', 'C', '-', '0', '0', '0', '1']);
        assert("GR-VEC-0001"@.skip(3).take(3) =~= "VEC"@);
    }
    lemma_tag_vec();
}

proof fn lemma_code_gr_vec_0002()
    ensures
        code_domain("GR-VEC-0002"@) == "vector"@,
{
    reveal_strlit("GR-VEC-0002");
    reveal_strlit("VEC");
    assert(code_tag("GR-VEC-0002"@) == Some("VEC"@)) by {
        reveal_with_fuel(index_of_char, 5);
        assert("GR-VEC-0002"@.skip(3) =~= seq!['V', 'E', 'C', '-', '0', '0', '0', '2']);
        assert("GR-VEC-0002"@.skip(3).take(3) =~= "VEC"@);
    }
    lemma_tag_vec();
}

proof fn lemma_order_gr_bc_0001()
    ensures
        chars_lt("GR-BC-0001"@, "GR-BC-0002"@),
{
    reveal_strlit("GR-BC-0001");
    reveal_strlit("GR-BC-0002");
    assert("GR-BC-0001"@.take(9) =~= "GR-BC-0002"@.take(9));
    lemma_chars_lt_at("GR-BC-0001"@, "GR-BC-0002"@, 9);
}

proof fn lemma_order_gr_bc_0002()
    ensures
        chars_lt("GR-BC-0002"@, "GR-BC-0003"@),
{
    reveal_strlit("GR-BC-0002");
    reveal_strlit("GR-BC-0003");
    assert("GR-BC-0002"@.take(9) =~= "GR-BC-0003"@.take(9));
    lemma_chars_lt_at("GR-BC-0002"@, "GR-BC-0003"@, 9);
}

proof fn lemma_order_gr_bc_0003()
    ensures
        chars_lt("GR-BC-0003"@, "GR-BIN-0001"@),
{
    reveal_strlit("GR-BC-0003");
    reveal_strlit("GR-BIN-0001");
    assert("GR-BC-0003"@.take(4) =~= "GR-BIN-0001"@.take(4));
    lemma_chars_lt_at("GR-BC-0003"@, "GR-BIN-0001"@, 4);
}

proof fn lemma_order_gr_bin_0001()
    ensures
        chars_lt("GR-BIN-0001"@, "GR-BIN-0002"@),
{
    reveal_strlit("GR-BIN-0001");
    reveal_strlit("GR-BIN-0002");
    assert("GR-BIN-0001"@.take(10) =~= "GR-BIN-0002"@.take(10));
    lemma_chars_lt_at("GR-BIN-0001"@, "GR-BIN-0002"@, 10);
}

proof fn lemma_order_gr_bin_0002()
    ensures
        chars_lt("GR-BIN-0002"@, "GR-CORE-0001"@),
{
    reveal_strlit("GR-BIN-0002");
    reveal_strlit("GR-CORE-0001");
    assert("GR-BIN-0002"@.take(3) =~= "GR-CORE-0001"@.take(3));
    lemma_chars_lt_at("GR-BIN-0002"@, "GR-CORE-0001"@, 3);
}

proof fn lemma_order_gr_core_0001()
    ensures
        chars_lt("GR-CORE-0001"@, "GR-CORE-0002"@),
{
    reveal_strlit("GR-CORE-0001");
    reveal_strlit("GR-CORE-0002");
    assert("GR-CORE-0001"@.take(11) =~= "GR-CORE-0002"@.take(11));
    lemma_chars_lt_at("GR-CORE-0001"@, "GR-CORE-0002"@, 11);
}

proof fn lemma_order_gr_core_0002()
    ensures
        chars_lt("GR-CORE-0002"@, "GR-CORE-0003"@),
{
    reveal_strlit("GR-CORE-0002");
    reveal_strlit("GR-CORE-0003");
    assert("GR-CORE-0002"@.take(11) =~= "GR-CORE-0003"@.take(11));
    lemma_chars_lt_at("GR-CORE-0002"@, "GR-CORE-0003"@, 11);
}

proof fn lemma_order_gr_core_0003()
    ensures
        chars_lt("GR-CORE-0003"@, "GR-CORE-0004"@),
{
    reveal_strlit("GR-CORE-0003");
    reveal_strlit("GR-CORE-0004");
    assert("GR-CORE-0003"@.take(11) =~= "GR-CORE-0004"@.take(11));
    lemma_chars_lt_at("GR-CORE-0003"@, "GR-CORE-0004"@, 11);
}

proof fn lemma_order_gr_core_0004()
    ensures
        chars_lt("GR-CORE-0004"@, "GR-CORE-0005"@),
{
    reveal_strlit("GR-CORE-0004");
    reveal_strlit("GR-CORE-0005");
    assert("GR-CORE-0004"@.take(11) =~= "GR-CORE-0005"@.take(11));
    lemma_chars_lt_at("GR-CORE-0004"@, "GR-CORE-0005"@, 11);
}

proof fn lemma_order_gr_core_0005()
    ensures
        chars_lt("GR-CORE-0005"@, "GR-CORE-0006"@),
{
    reveal_strlit("GR-CORE-0005");
    reveal_strlit("GR-CORE-0006");
    assert("GR-CORE-0005"@.take(11) =~= "GR-CORE-0006"@.take(11));
    lemma_chars_lt_at("GR-CORE-0005"@, "GR-CORE-0006"@, 11);
}

proof fn lemma_order_gr_core_0006()
    ensures
        chars_lt("GR-CORE-0006"@, "GR-CORE-0007"@),
{
    reveal_strlit("GR-CORE-0006");
    reveal_strlit("GR-CORE-0007");
    assert("GR-CORE-0006"@.take(11) =~= "GR-CORE-0007"@.take(11));
    lemma_chars_lt_at("GR-CORE-0006"@, "GR-CORE-0007"@, 11);
}

proof fn lemma_order_gr_core_0007()
    ensures
        chars_lt("GR-CORE-0007"@, "GR-CORE-0008"@),
{
    reveal_strlit("GR-CORE-0007");
    reveal_strlit("GR-CORE-0008");
    assert("GR-CORE-0007"@.take(11) =~= "GR-CORE-0008"@.take(11));
    lemma_chars_lt_at("GR-CORE-0007"@, "GR-CORE-0008"@, 11);
}

proof fn lemma_order_gr_core_0008()
    ensures
        chars_lt("GR-CORE-0008"@, "GR-CORE-0009"@),
{
    reveal_strlit("GR-CORE-0008");
    reveal_strlit("GR-CORE-0009");
    assert("GR-CORE-0008"@.take(11) =~= "GR-CORE-0009"@.take(11));
    lemma_chars_lt_at("GR-CORE-0008"@, "GR-CORE-0009"@, 11);
}

proof fn lemma_order_gr_core_0009()
    ensures
        chars_lt("GR-CORE-0009"@, "GR-CORE-0010"@),
{
    reveal_strlit("GR-CORE-0009");
    reveal_strlit("GR-CORE-0010");
    assert("GR-CORE-0009"@.take(10) =~= "GR-CORE-0010"@.take(10));
    lemma_chars_lt_at("GR-CORE-0009"@, "GR-CORE-0010"@, 10);
}

proof fn lemma_order_gr_core_0010()
    ensures
        chars_lt("GR-CORE-0010"@, "GR-FLOW-0001"@),
{
    reveal_strlit("GR-CORE-0010");
    reveal_strlit("GR-FLOW-0001");
    assert("GR-CORE-0010"@.take(3) =~= "GR-FLOW-0001"@.take(3));
    lemma_chars_lt_at("GR-CORE-0010"@, "GR-FLOW-0001"@, 3);
}

proof fn lemma_order_gr_flow_0001()
    ensures
        chars_lt("GR-FLOW-0001"@, "GR-FLOW-0002"@),
{
    reveal_strlit("GR-FLOW-0001");
    reveal_strlit("GR-FLOW-0002");
    assert("GR-FLOW-0001"@.take(11) =~= "GR-FLOW-0002"@.take(11));
    lemma_chars_lt_at("GR-FLOW-0001"@, "GR-FLOW-0002"@, 11);
}

proof fn lemma_order_gr_flow_0002()
    ensures
        chars_lt("GR-FLOW-0002"@, "GR-HOOKS-0001"@),
{
    reveal_strlit("GR-FLOW-0002");
    reveal_strlit("GR-HOOKS-0001");
    assert("GR-FLOW-0002"@.take(3) =~= "GR-HOOKS-0001"@.take(3));
    lemma_chars_lt_at("GR-FLOW-0002"@, "GR-HOOKS-0001"@, 3);
}

proof fn lemma_order_gr_hooks_0001()
    ensures
        chars_lt("GR-HOOKS-0001"@, "GR-HOOKS-0002"@),
{
    reveal_strlit("GR-HOOKS-0001");
    reveal_strlit("GR-HOOKS-0002");
    assert("GR-HOOKS-0001"@.take(12) =~= "GR-HOOKS-0002"@.take(12));
    lemma_chars_lt_at("GR-HOOKS-0001"@, "GR-HOOKS-0002"@, 12);
}

proof fn lemma_order_gr_hooks_0002()
    ensures
        chars_lt("GR-HOOKS-0002"@, "GR-HOOKS-0003"@),
{
    reveal_strlit("GR-HOOKS-0002");
    reveal_strlit("GR-HOOKS-0003");
    assert("GR-HOOKS-0002"@.take(12) =~= "GR-HOOKS-0003"@.take(12));
    lemma_chars_lt_at("GR-HOOKS-0002"@, "GR-HOOKS-0003"@, 12);
}

proof fn lemma_order_gr_hooks_0003()
    ensures
        chars_lt("GR-HOOKS-0003"@, "GR-INF-0001"@),
{
    reveal_strlit("GR-HOOKS-0003");
    reveal_strlit("GR-INF-0001");
    assert("GR-HOOKS-0003"@.take(3) =~= "GR-INF-0001"@.take(3));
    lemma_chars_lt_at("GR-HOOKS-0003"@, "GR-INF-0001"@, 3);
}

proof fn lemma_order_gr_inf_0001()
    ensures
        chars_lt("GR-INF-0001"@, "GR-INF-0002"@),
{
    reveal_strlit("GR-INF-0001");
    reveal_strlit("GR-INF-0002");
    assert("GR-INF-0001"@.take(10) =~= "GR-INF-0002"@.take(10));
    lemma_chars_lt_at("GR-INF-0001"@, "GR-INF-0002"@, 10);
}

proof fn lemma_order_gr_inf_0002()
    ensures
        chars_lt("GR-INF-0002"@, "GR-INT-0001"@),
{
    reveal_strlit("GR-INF-0002");
    reveal_strlit("GR-INT-0001");
    assert("GR-INF-0002"@.take(5) =~= "GR-INT-0001"@.take(5));
    lemma_chars_lt_at("GR-INF-0002"@, "GR-INT-0001"@, 5);
}

proof fn lemma_order_gr_int_0001()
    ensures
        chars_lt("GR-INT-0001"@, "GR-INT-0002"@),
{
    reveal_strlit("GR-INT-0001");
    reveal_strlit("GR-INT-0002");
    assert("GR-INT-0001"@.take(10) =~= "GR-INT-0002"@.take(10));
    lemma_chars_lt_at("GR-INT-0001"@, "GR-INT-0002"@, 10);
}

proof fn lemma_order_gr_int_0002()
    ensures
        chars_lt("GR-INT-0002"@, "GR-INT-0003"@),
{
    reveal_strlit("GR-INT-0002");
    reveal_strlit("GR-INT-0003");
    assert("GR-INT-0002"@.take(10) =~= "GR-INT-0003"@.take(10));
    lemma_chars_lt_at("GR-INT-0002"@, "GR-INT-0003"@, 10);
}

proof fn lemma_order_gr_int_0003()
    ensures
        chars_lt("GR-INT-0003"@, "GR-IOT-0001"@),
{
    reveal_strlit("GR-INT-0003");
    reveal_strlit("GR-IOT-0001");
    assert("GR-INT-0003"@.take(4) =~= "GR-IOT-0001"@.take(4));
    lemma_chars_lt_at("GR-INT-0003"@, "GR-IOT-0001"@, 4);
}

proof fn lemma_order_gr_iot_0001()
    ensures
        chars_lt("GR-IOT-0001"@, "GR-IOT-0002"@),
{
    reveal_strlit("GR-IOT-0001");
    reveal_strlit("GR-IOT-0002");
    assert("GR-IOT-0001"@.take(10) =~= "GR-IOT-0002"@.take(10));
    lemma_chars_lt_at("GR-IOT-0001"@, "GR-IOT-0002"@, 10);
}

proof fn lemma_order_gr_iot_0002()
    ensures
        chars_lt("GR-IOT-0002"@, "GR-IPC-0001"@),
{
    reveal_strlit("GR-IOT-0002");
    reveal_strlit("GR-IPC-0001");
    assert("GR-IOT-0002"@.take(4) =~= "GR-IPC-0001"@.take(4));
    lemma_chars_lt_at("GR-IOT-0002"@, "GR-IPC-0001"@, 4);
}

proof fn lemma_order_gr_ipc_0001()
    ensures
        chars_lt("GR-IPC-0001"@, "GR-IPC-0002"@),
{
    reveal_strlit("GR-IPC-0001");
    reveal_strlit("GR-IPC-0002");
    assert("GR-IPC-0001"@.take(10) =~= "GR-IPC-0002"@.take(10));
    lemma_chars_lt_at("GR-IPC-0001"@, "GR-IPC-0002"@, 10);
}

proof fn lemma_order_gr_ipc_0002()
    ensures
        chars_lt("GR-IPC-0002"@, "GR-IPC-0003"@),
{
    reveal_strlit("GR-IPC-0002");
    reveal_strlit("GR-IPC-0003");
    assert("GR-IPC-0002"@.take(10) =~= "GR-IPC-0003"@.take(10));
    lemma_chars_lt_at("GR-IPC-0002"@, "GR-IPC-0003"@, 10);
}

proof fn lemma_order_gr_ipc_0003()
    ensures
        chars_lt("GR-IPC-0003"@, "GR-LLM-0001"@),
{
    reveal_strlit("GR-IPC-0003");
    reveal_strlit("GR-LLM-0001");
    assert("GR-IPC-0003"@.take(3) =~= "GR-LLM-0001"@.take(3));
    lemma_chars_lt_at("GR-IPC-0003"@, "GR-LLM-0001"@, 3);
}

proof fn lemma_order_gr_llm_0001()
    ensures
        chars_lt("GR-LLM-0001"@, "GR-LLM-0002"@),
{
    reveal_strlit("GR-LLM-0001");
    reveal_strlit("GR-LLM-0002");
    assert("GR-LLM-0001"@.take(10) =~= "GR-LLM-0002"@.take(10));
    lemma_chars_lt_at("GR-LLM-0001"@, "GR-LLM-0002"@, 10);
}

proof fn lemma_order_gr_llm_0002()
    ensures
        chars_lt("GR-LLM-0002"@, "GR-LLM-0003"@),
{
    reveal_strlit("GR-LLM-0002");
    reveal_strlit("GR-LLM-0003");
    assert("GR-LLM-0002"@.take(10) =~= "GR-LLM-0003"@.take(10));
    lemma_chars_lt_at("GR-LLM-0002"@, "GR-LLM-0003"@, 10);
}

proof fn lemma_order_gr_llm_0003()
    ensures
        chars_lt("GR-LLM-0003"@, "GR-LLM-0004"@),
{
    reveal_strlit("GR-LLM-0003");
    reveal_strlit("GR-LLM-0004");
    assert("GR-LLM-0003"@.take(10) =~= "GR-LLM-0004"@.take(10));
    lemma_chars_lt_at("GR-LLM-0003"@, "GR-LLM-0004"@, 10);
}

proof fn lemma_order_gr_llm_0004()
    ensures
        chars_lt("GR-LLM-0004"@, "GR-LLM-0005"@),
{
    reveal_strlit("GR-LLM-0004");
    reveal_strlit("GR-LLM-0005");
    assert("GR-LLM-0004"@.take(10) =~= "GR-LLM-0005"@.take(10));
    lemma_chars_lt_at("GR-LLM-0004"@, "GR-LLM-0005"@, 10);
}

proof fn lemma_order_gr_llm_0005()
    ensures
        chars_lt("GR-LLM-0005"@, "GR-MSG-0001"@),
{
    reveal_strlit("GR-LLM-0005");
    reveal_strlit("GR-MSG-0001");
    assert("GR-LLM-0005"@.take(3) =~= "GR-MSG-0001"@.take(3));
    lemma_chars_lt_at("GR-LLM-0005"@, "GR-MSG-0001"@, 3);
}

proof fn lemma_order_gr_msg_0001()
    ensures
        chars_lt("GR-MSG-0001"@, "GR-MSG-0002"@),
{
    reveal_strlit("GR-MSG-0001");
    reveal_strlit("GR-MSG-0002");
    assert("GR-MSG-0001"@.take(10) =~= "GR-MSG-0002"@.take(10));
    lemma_chars_lt_at("GR-MSG-0001"@, "GR-MSG-0002"@, 10);
}

proof fn lemma_order_gr_msg_0002()
    ensures
        chars_lt("GR-MSG-0002"@, "GR-MSG-0003"@),
{
    reveal_strlit("GR-MSG-0002");
    reveal_strlit("GR-MSG-0003");
    assert("GR-MSG-0002"@.take(10) =~= "GR-MSG-0003"@.take(10));
    lemma_chars_lt_at("GR-MSG-0002"@, "GR-MSG-0003"@, 10);
}

proof fn lemma_order_gr_msg_0003()
    ensures
        chars_lt("GR-MSG-0003"@, "GR-ORCH-0001"@),
{
    reveal_strlit("GR-MSG-0003");
    reveal_strlit("GR-ORCH-0001");
    assert("GR-MSG-0003"@.take(3) =~= "GR-ORCH-0001"@.take(3));
    lemma_chars_lt_at("GR-MSG-0003"@, "GR-ORCH-0001"@, 3);
}

proof fn lemma_order_gr_orch_0001()
    ensures
        chars_lt("GR-ORCH-0001"@, "GR-ORCH-0002"@),
{
    reveal_strlit("GR-ORCH-0001");
    reveal_strlit("GR-ORCH-0002");
    assert("GR-ORCH-0001"@.take(11) =~= "GR-ORCH-0002"@.take(11));
    lemma_chars_lt_at("GR-ORCH-0001"@, "GR-ORCH-0002"@, 11);
}

proof fn lemma_order_gr_orch_0002()
    ensures
        chars_lt("GR-ORCH-0002"@, "GR-ORCH-0003"@),
{
    reveal_strlit("GR-ORCH-0002");
    reveal_strlit("GR-ORCH-0003");
    assert("GR-ORCH-0002"@.take(11) =~= "GR-ORCH-0003"@.take(11));
    lemma_chars_lt_at("GR-ORCH-0002"@, "GR-ORCH-0003"@, 11);
}

proof fn lemma_order_gr_orch_0003()
    ensures
        chars_lt("GR-ORCH-0003"@, "GR-PLUGIN-0001"@),
{
    reveal_strlit("GR-ORCH-0003");
    reveal_strlit("GR-PLUGIN-0001");
    assert("GR-ORCH-0003"@.take(3) =~= "GR-PLUGIN-0001"@.take(3));
    lemma_chars_lt_at("GR-ORCH-0003"@, "GR-PLUGIN-0001"@, 3);
}

proof fn lemma_order_gr_plugin_0001()
    ensures
        chars_lt("GR-PLUGIN-0001"@, "GR-PLUGIN-0002"@),
{
    reveal_strlit("GR-PLUGIN-0001");
    reveal_strlit("GR-PLUGIN-0002");
    assert("GR-PLUGIN-0001"@.take(13) =~= "GR-PLUGIN-0002"@.take(13));
    lemma_chars_lt_at("GR-PLUGIN-0001"@, "GR-PLUGIN-0002"@, 13);
}

proof fn lemma_order_gr_plugin_0002()
    ensures
        chars_lt("GR-PLUGIN-0002"@, "GR-PLUGIN-0003"@),
{
    reveal_strlit("GR-PLUGIN-0002");
    reveal_strlit("GR-PLUGIN-0003");
    assert("GR-PLUGIN-0002"@.take(13) =~= "GR-PLUGIN-0003"@.take(13));
    lemma_chars_lt_at("GR-PLUGIN-0002"@, "GR-PLUGIN-0003"@, 13);
}

proof fn lemma_order_gr_plugin_0003()
    ensures
        chars_lt("GR-PLUGIN-0003"@, "GR-PROTO-0001"@),
{
    reveal_strlit("GR-PLUGIN-0003");
    reveal_strlit("GR-PROTO-0001");
    assert("GR-PLUGIN-0003"@.take(4) =~= "GR-PROTO-0001"@.take(4));
    lemma_chars_lt_at("GR-PLUGIN-0003"@, "GR-PROTO-0001"@, 4);
}

proof fn lemma_order_gr_proto_0001()
    ensures
        chars_lt("GR-PROTO-0001"@, "GR-PROTO-0002"@),
{
    reveal_strlit("GR-PROTO-0001");
    reveal_strlit("GR-PROTO-0002");
    assert("GR-PROTO-0001"@.take(12) =~= "GR-PROTO-0002"@.take(12));
    lemma_chars_lt_at("GR-PROTO-0001"@, "GR-PROTO-0002"@, 12);
}

proof fn lemma_order_gr_proto_0002()
    ensures
        chars_lt("GR-PROTO-0002"@, "GR-PROTO-0003"@),
{
    reveal_strlit("GR-PROTO-0002");
    reveal_strlit("GR-PROTO-0003");
    assert("GR-PROTO-0002"@.take(12) =~= "GR-PROTO-0003"@.take(12));
    lemma_chars_lt_at("GR-PROTO-0002"@, "GR-PROTO-0003"@, 12);
}

proof fn lemma_order_gr_proto_0003()
    ensures
        chars_lt("GR-PROTO-0003"@, "GR-RUNTIME-0001"@),
{
    reveal_strlit("GR-PROTO-0003");
    reveal_strlit("GR-RUNTIME-0001");
    assert("GR-PROTO-0003"@.take(3) =~= "GR-RUNTIME-0001"@.take(3));
    lemma_chars_lt_at("GR-PROTO-0003"@, "GR-RUNTIME-0001"@, 3);
}

proof fn lemma_order_gr_runtime_0001()
    ensures
        chars_lt("GR-RUNTIME-0001"@, "GR-RUNTIME-0002"@),
{
    reveal_strlit("GR-RUNTIME-0001");
    reveal_strlit("GR-RUNTIME-0002");
    assert("GR-RUNTIME-0001"@.take(14) =~= "GR-RUNTIME-0002"@.take(14));
    lemma_chars_lt_at("GR-RUNTIME-0001"@, "GR-RUNTIME-0002"@, 14);
}

proof fn lemma_order_gr_runtime_0002()
    ensures
        chars_lt("GR-RUNTIME-0002"@, "GR-RUNTIME-0003"@),
{
    reveal_strlit("GR-RUNTIME-0002");
    reveal_strlit("GR-RUNTIME-0003");
    assert("GR-RUNTIME-0002"@.take(14) =~= "GR-RUNTIME-0003"@.take(14));
    lemma_chars_lt_at("GR-RUNTIME-0002"@, "GR-RUNTIME-0003"@, 14);
}

proof fn lemma_order_gr_runtime_0003()
    ensures
        chars_lt("GR-RUNTIME-0003"@, "GR-SANDBOX-0001"@),
{
    reveal_strlit("GR-RUNTIME-0003");
    reveal_strlit("GR-SANDBOX-0001");
    assert("GR-RUNTIME-0003"@.take(3) =~= "GR-SANDBOX-0001"@.take(3));
    lemma_chars_lt_at("GR-RUNTIME-0003"@, "GR-SANDBOX-0001"@, 3);
}

proof fn lemma_order_gr_sandbox_0001()
    ensures
        chars_lt("GR-SANDBOX-0001"@, "GR-SANDBOX-0002"@),
{
    reveal_strlit("GR-SANDBOX-0001");
    reveal_strlit("GR-SANDBOX-0002");
    assert("GR-SANDBOX-0001"@.take(14) =~= "GR-SANDBOX-0002"@.take(14));
    lemma_chars_lt_at("GR-SANDBOX-0001"@, "GR-SANDBOX-0002"@, 14);
}

proof fn lemma_order_gr_sandbox_0002()
    ensures
        chars_lt("GR-SANDBOX-0002"@, "GR-SANDBOX-0003"@),
{
    reveal_strlit("GR-SANDBOX-0002");
    reveal_strlit("GR-SANDBOX-0003");
    assert("GR-SANDBOX-0002"@.take(14) =~= "GR-SANDBOX-0003"@.take(14));
    lemma_chars_lt_at("GR-SANDBOX-0002"@, "GR-SANDBOX-0003"@, 14);
}

proof fn lemma_order_gr_sandbox_0003()
    ensures
        chars_lt("GR-SANDBOX-0003"@, "GR-SANDBOX-0004"@),
{
    reveal_strlit("GR-SANDBOX-0003");
    reveal_strlit("GR-SANDBOX-0004");
    assert("GR-SANDBOX-0003"@.take(14) =~= "GR-SANDBOX-0004"@.take(14));
    lemma_chars_lt_at("GR-SANDBOX-0003"@, "GR-SANDBOX-0004"@, 14);
}

proof fn lemma_order_gr_sandbox_0004()
    ensures
        chars_lt("GR-SANDBOX-0004"@, "GR-STREAM-0001"@),
{
    reveal_strlit("GR-SANDBOX-0004");
    reveal_strlit("GR-STREAM-0001");
    assert("GR-SANDBOX-0004"@.take(4) =~= "GR-STREAM-0001"@.take(4));
    lemma_chars_lt_at("GR-SANDBOX-0004"@, "GR-STREAM-0001"@, 4);
}

proof fn lemma_order_gr_stream_0001()
    ensures
        chars_lt("GR-STREAM-0001"@, "GR-STREAM-0002"@),
{
    reveal_strlit("GR-STREAM-0001");
    reveal_strlit("GR-STREAM-0002");
    assert("GR-STREAM-0001"@.take(13) =~= "GR-STREAM-0002"@.take(13));
    lemma_chars_lt_at("GR-STREAM-0001"@, "GR-STREAM-0002"@, 13);
}

proof fn lemma_order_gr_stream_0002()
    ensures
        chars_lt("GR-STREAM-0002"@, "GR-VEC-0001"@),
{
    reveal_strlit("GR-STREAM-0002");
    reveal_strlit("GR-VEC-0001");
    assert("GR-STREAM-0002"@.take(3) =~= "GR-VEC-0001"@.take(3));
    lemma_chars_lt_at("GR-STREAM-0002"@, "GR-VEC-0001"@, 3);
}

proof fn lemma_order_gr_vec_0001()
    ensures
        chars_lt("GR-VEC-0001"@, "GR-VEC-0002"@),
{
    reveal_strlit("GR-VEC-0001");
    reveal_strlit("GR-VEC-0002");
    assert("GR-VEC-0001"@.take(10) =~= "GR-VEC-0002"@.take(10));
    lemma_chars_lt_at("GR-VEC-0001"@, "GR-VEC-0002"@, 10);
}

/// The built-in entries of the `blockchain` domain, by code.
pub open spec fn builtin_bc() -> Seq<GrassErrorEntryView> {
    seq![
        builtin(
            "GR-BC-0001",
            "blockchain",
            "eth",
            GrassErrorSeverity::Error,
            "Ethereum RPC call failed",
            seq!["node unreachable", "rate limited"],
            seq!["check provider endpoint", "add backoff"],
        ),
        builtin(
            "GR-BC-0002",
            "blockchain",
            "tx",
            GrassErrorSeverity::Error,
            "Transaction nonce mismatch",
            seq!["stale nonce", "pending txs"],
            seq!["refresh nonce", "await mined block"],
        ),
        builtin(
            "GR-BC-0003",
            "blockchain",
            "tx",
            GrassErrorSeverity::Error,
            "Gas estimation failed",
            seq!["insufficient balance", "revert"],
            seq!["fund account", "inspect revert reason"],
        ),
    ]
}

/// The built-in entries of the `binary` domain, by code.
pub open spec fn builtin_bin() -> Seq<GrassErrorEntryView> {
    seq![
        builtin(
            "GR-BIN-0001",
            "binary",
            "startup",
            GrassErrorSeverity::Error,
            "Startup configuration invalid",
            seq!["missing env var", "bad RUST_LOG"],
            seq!["set required env vars", "fix log filter"],
        ),
        builtin(
            "GR-BIN-0002",
            "binary",
            "shutdown",
            GrassErrorSeverity::Warning,
            "Graceful shutdown incomplete",
            seq!["tasks still running", "hook drain timed out"],
            seq!["await task completion", "raise drain timeout"],
        ),
    ]
}

/// The built-in entries of the `core` domain, by code.
pub open spec fn builtin_core() -> Seq<GrassErrorEntryView> {
    seq![
        builtin(
            "GR-CORE-0001",
            "core",
            "agent",
            GrassErrorSeverity::Error,
            "Agent execution failed",
            seq!["start/stop transition raced", "execute panicked", "bad task payload"],
            seq!["inspect agent state machine", "enable RUST_LOG=debug", "replay task payload"],
        ),
        builtin(
            "GR-CORE-0002",
            "core",
            "task",
            GrassErrorSeverity::Error,
            "Task execution failed",
            seq!["missing agent", "task payload invalid", "duration exceeded timeout"],
            seq!["validate task_id/agent_id", "raise GrassScheduler timeout", "check result.error"],
        ),
        builtin(
            "GR-CORE-0003",
            "core",
            "plugin",
            GrassErrorSeverity::Error,
            "Plugin lifecycle error",
            seq!["manifest malformed", "ABI mismatch", "dependency unsatisfied"],
            seq!["verify GrassPluginManifest fields", "match ABI version", "fulfil declared deps"],
        ),
        builtin(
            "GR-CORE-0004",
            "core",
            "hook",
            GrassErrorSeverity::Error,
            "Hook dispatch error",
            seq!["webhook endpoint unreachable", "payload not serializable"],
            seq!["confirm endpoint reachable", "ensure payload is JSON"],
        ),
        builtin(
            "GR-CORE-0005",
            "core",
            "serialize",
            GrassErrorSeverity::Error,
            "Serialization failure",
            seq!["non-JSON payload", "field type mismatch"],
            seq!["inspect offending value", "use serde_json::Value for dynamic fields"],
        ),
        builtin(
            "GR-CORE-0006",
            "core",
            "io",
            GrassErrorSeverity::Error,
            "I/O failure",
            seq!["file missing", "permission denied", "disk full"],
            seq!["check path exists", "fix file mode", "free disk space"],
        ),
        builtin(
            "GR-CORE-0007",
            "core",
            "timeout",
            GrassErrorSeverity::Warning,
            "Operation timed out",
            seq!["slow upstream", "incorrect deadline", "lock contention"],
            seq!["raise timeout", "retry with backoff", "inspect contention"],
        ),
        builtin(
            "GR-CORE-0008",
            "core",
            "lookup",
            GrassErrorSeverity::Info,
            "Resource not found",
            seq!["id mismatch", "registry empty", "stale reference"],
            seq!["verify id", "populate registry", "refresh references"],
        ),
        builtin(
            "GR-CORE-0009",
            "core",
            "security",
            GrassErrorSeverity::Critical,
            "Permission denied",
            seq!["missing role", "revoked token", "policy denies"],
            seq!["assign role", "rotate credential", "review policy"],
        ),
        builtin(
            "GR-CORE-0010",
            "core",
            "internal",
            GrassErrorSeverity::Error,
            "Unclassified internal error",
            seq!["bug", "invariant violation"],
            seq!["collect backtrace", "open issue with reproduction"],
        ),
    ]
}

/// The built-in entries of the `flow` domain, by code.
pub open spec fn builtin_flow() -> Seq<GrassErrorEntryView> {
    seq![
        builtin(
            "GR-FLOW-0001",
            "flow",
            "n8n",
            GrassErrorSeverity::Error,
            "N8N trigger failed",
            seq!["workflow inactive", "bad credentials"],
            seq!["activate workflow", "verify API key"],
        ),
        builtin(
            "GR-FLOW-0002",
            "flow",
            "make",
            GrassErrorSeverity::Error,
            "Make.com webhook failed",
            seq!["webhook removed", "payload schema mismatch"],
            seq!["recreate webhook", "match scenario schema"],
        ),
    ]
}

/// The built-in entries of the `hooks` domain, by code.
pub open spec fn builtin_hooks() -> Seq<GrassErrorEntryView> {
    seq![
        builtin(
            "GR-HOOKS-0001",
            "hooks",
            "slack",
            GrassErrorSeverity::Error,
            "Slack webhook delivery failed",
            seq!["bad webhook URL", "rate limited", "channel removed"],
            seq!["verify incoming-webhook URL", "backoff and retry"],
        ),
        builtin(
            "GR-HOOKS-0002",
            "hooks",
            "discord",
            GrassErrorSeverity::Error,
            "Discord webhook delivery failed",
            seq!["webhook token invalid", "content too long"],
            seq!["recreate webhook", "truncate message"],
        ),
        builtin(
            "GR-HOOKS-0003",
            "hooks",
            "webhook",
            GrassErrorSeverity::Error,
            "Generic webhook delivery failed",
            seq!["endpoint 4xx/5xx", "timeout", "TLS error"],
            seq!["inspect status code", "raise timeout", "check certificate"],
        ),
    ]
}

/// The built-in entries of the `inference` domain, by code.
pub open spec fn builtin_inf() -> Seq<GrassErrorEntryView> {
    seq![
        builtin(
            "GR-INF-0001",
            "inference",
            "tensorrt",
            GrassErrorSeverity::Error,
            "TensorRT engine failed",
            seq!["engine version mismatch", "GPU unsupported"],
            seq!["rebuild engine", "match TensorRT version"],
        ),
        builtin(
            "GR-INF-0002",
            "inference",
            "onnx",
            GrassErrorSeverity::Error,
            "ONNX runtime session failed",
            seq!["model path missing", "opset unsupported"],
            seq!["verify .onnx path", "re-export model"],
        ),
    ]
}

/// The built-in entries of the `integrations` domain, by code.
pub open spec fn builtin_int() -> Seq<GrassErrorEntryView> {
    seq![
        builtin(
            "GR-INT-0001",
            "integrations",
            "ondc",
            GrassErrorSeverity::Error,
            "ONDC subscribe failed",
            seq!["invalid signing pub key", "callback unreachable"],
            seq!["verify pub key", "expose callback URL"],
        ),
        builtin(
            "GR-INT-0002",
            "integrations",
            "ipfs",
            GrassErrorSeverity::Error,
            "IPFS pin failed",
            seq!["node offline", "content too large"],
            seq!["check ipfs daemon", "chunk upload"],
        ),
        builtin(
            "GR-INT-0003",
            "integrations",
            "fiss",
            GrassErrorSeverity::Error,
            "FISS registration failed",
            seq!["gstin invalid", "HSN mismatch"],
            seq!["validate GSTIN", "correct HSN mapping"],
        ),
    ]
}

/// The built-in entries of the `iot` domain, by code.
pub open spec fn builtin_iot() -> Seq<GrassErrorEntryView> {
    seq![
        builtin(
            "GR-IOT-0001",
            "iot",
            "mqtt",
            GrassErrorSeverity::Error,
            "MQTT connection lost",
            seq!["broker down", "credentials rejected"],
            seq!["check broker health", "verify user/pass"],
        ),
        builtin(
            "GR-IOT-0002",
            "iot",
            "modbus",
            GrassErrorSeverity::Error,
            "Modbus slave timeout",
            seq!["slave offline", "address range invalid"],
            seq!["ping slave device", "fix register address"],
        ),
    ]
}

/// The built-in entries of the `ipc` domain, by code.
pub open spec fn builtin_ipc() -> Seq<GrassErrorEntryView> {
    seq![
        builtin(
            "GR-IPC-0001",
            "ipc",
            "zmq",
            GrassErrorSeverity::Error,
            "ZeroMQ transport failure",
            seq!["socket bind conflict", "peer disconnected"],
            seq!["change endpoint", "reconnect with retry"],
        ),
        builtin(
            "GR-IPC-0002",
            "ipc",
            "valkey",
            GrassErrorSeverity::Error,
            "Valkey transport failure",
            seq!["server down", "auth failed"],
            seq!["check valkey health", "verify credentials"],
        ),
        builtin(
            "GR-IPC-0003",
            "ipc",
            "shm",
            GrassErrorSeverity::Error,
            "Shared memory transport failure",
            seq!["region unavailable", "size overflow"],
            seq!["check /dev/shm space", "reduce payload size"],
        ),
    ]
}

/// The built-in entries of the `llm` domain, by code.
pub open spec fn builtin_llm() -> Seq<GrassErrorEntryView> {
    seq![
        builtin(
            "GR-LLM-0001",
            "llm",
            "service",
            GrassErrorSeverity::Error,
            "LLM provider not found",
            seq!["provider not registered", "name typo"],
            seq!["check GrassLlmService::register_provider calls", "verify provider name"],
        ),
        builtin(
            "GR-LLM-0002",
            "llm",
            "provider",
            GrassErrorSeverity::Error,
            "LLM API request failed",
            seq!["invalid API key", "network error", "rate limited", "quota exhausted"],
            seq!["rotate key", "retry with backoff", "check provider status page"],
        ),
        builtin(
            "GR-LLM-0003",
            "llm",
            "provider",
            GrassErrorSeverity::Error,
            "LLM response parse failed",
            seq!["schema drift", "empty body", "wrong endpoint"],
            seq!["pin a model version", "log raw response body", "verify endpoint"],
        ),
        builtin(
            "GR-LLM-0004",
            "llm",
            "stream",
            GrassErrorSeverity::Info,
            "Streaming not supported by provider",
            seq!["provider lacks SSE", "feature disabled"],
            seq!["use complete() fallback", "enable stream flag"],
        ),
        builtin(
            "GR-LLM-0005",
            "llm",
            "provider",
            GrassErrorSeverity::Warning,
            "Empty choices returned",
            seq!["max_tokens too low", "model refusal"],
            seq!["raise max_tokens", "inspect finish_reason"],
        ),
    ]
}

/// The built-in entries of the `messaging` domain, by code.
pub open spec fn builtin_msg() -> Seq<GrassErrorEntryView> {
    seq![
        builtin(
            "GR-MSG-0001",
            "messaging",
            "kafka",
            GrassErrorSeverity::Error,
            "Kafka producer send failed",
            seq!["broker down", "topic missing", "acks timeout"],
            seq!["check brokers list", "create topic", "increase request timeouts"],
        ),
        builtin(
            "GR-MSG-0002",
            "messaging",
            "kafka",
            GrassErrorSeverity::Error,
            "Kafka consumer failed",
            seq!["group rebalance", "offset out of range"],
            seq!["reset offsets", "handle rebalance events"],
        ),
        builtin(
            "GR-MSG-0003",
            "messaging",
            "qmqp",
            GrassErrorSeverity::Error,
            "QMQP channel failed",
            seq!["broker closed channel", "invalid route"],
            seq!["reconnect channel", "verify routing key"],
        ),
    ]
}

/// The built-in entries of the `orchestrator` domain, by code.
pub open spec fn builtin_orch() -> Seq<GrassErrorEntryView> {
    seq![
        builtin(
            "GR-ORCH-0001",
            "orchestrator",
            "graph",
            GrassErrorSeverity::Critical,
            "Task graph cycle detected",
            seq!["edge misconfigured", "self-loop"],
            seq!["run topological sort", "remove cyclic edge"],
        ),
        builtin(
            "GR-ORCH-0002",
            "orchestrator",
            "crew",
            GrassErrorSeverity::Error,
            "Crew agent unassigned",
            seq!["agent died", "task not mapped to agent"],
            seq!["restart agent", "call assign_task"],
        ),
        builtin(
            "GR-ORCH-0003",
            "orchestrator",
            "dag",
            GrassErrorSeverity::Error,
            "Execution DAG resolution failed",
            seq!["multiple entry points", "missing node"],
            seq!["declare single root", "add missing node"],
        ),
    ]
}

/// The built-in entries of the `plugin` domain, by code.
pub open spec fn builtin_plugin() -> Seq<GrassErrorEntryView> {
    seq![
        builtin(
            "GR-PLUGIN-0001",
            "plugin",
            "loader",
            GrassErrorSeverity::Error,
            "Dynamic plugin load failed",
            seq!["library incompatible", "never loaded symbol"],
            seq!["match ABI/version", "verify .so exports"],
        ),
        builtin(
            "GR-PLUGIN-0002",
            "plugin",
            "manifest",
            GrassErrorSeverity::Error,
            "Plugin manifest invalid",
            seq!["missing name/version", "unparseable schema"],
            seq!["validate GrassPluginManifest", "fix schema"],
        ),
        builtin(
            "GR-PLUGIN-0003",
            "plugin",
            "registry",
            GrassErrorSeverity::Error,
            "Plugin registration conflict",
            seq!["duplicate name", "version downgrade"],
            seq!["choose unique name", "bump version"],
        ),
    ]
}

/// The built-in entries of the `protocol` domain, by code.
pub open spec fn builtin_proto() -> Seq<GrassErrorEntryView> {
    seq![
        builtin(
            "GR-PROTO-0001",
            "protocol",
            "mcp",
            GrassErrorSeverity::Error,
            "MCP frame encode/decode failed",
            seq!["malformed JSON-RPC", "missing id or method"],
            seq!["validate GrassMcpRequest", "use GrassMcpCodec decode round-trip"],
        ),
        builtin(
            "GR-PROTO-0002",
            "protocol",
            "acp",
            GrassErrorSeverity::Error,
            "ACP routing failed",
            seq!["unknown command", "payload mismatch"],
            seq!["register command handler", "validate envelope"],
        ),
        builtin(
            "GR-PROTO-0003",
            "protocol",
            "grpc",
            GrassErrorSeverity::Error,
            "gRPC registry miss",
            seq!["service not registered", "protobuf mismatch"],
            seq!["register service in GrassGrpcRegistry", "regenerate protos"],
        ),
    ]
}

/// The built-in entries of the `runtime` domain, by code.
pub open spec fn builtin_runtime() -> Seq<GrassErrorEntryView> {
    seq![
        builtin(
            "GR-RUNTIME-0001",
            "runtime",
            "executor",
            GrassErrorSeverity::Error,
            "Executor queue saturated",
            seq!["worker pool exhausted", "blocked tasks"],
            seq!["increase GrassTaskExecutor worker count", "add timeouts to tasks"],
        ),
        builtin(
            "GR-RUNTIME-0002",
            "runtime",
            "scheduler",
            GrassErrorSeverity::Warning,
            "Scheduler ordering conflict",
            seq!["priority inversion", "duplicate enqueue"],
            seq!["duplicate-id check", "rebalance priorities"],
        ),
        builtin(
            "GR-RUNTIME-0003",
            "runtime",
            "timer",
            GrassErrorSeverity::Info,
            "Timer cancelled or expired",
            seq!["deadline passed", "timer reset"],
            seq!["use monotonic clock", "restart timer"],
        ),
    ]
}

/// The built-in entries of the `sandbox` domain, by code.
pub open spec fn builtin_sandbox() -> Seq<GrassErrorEntryView> {
    seq![
        builtin(
            "GR-SANDBOX-0001",
            "sandbox",
            "docker",
            GrassErrorSeverity::Error,
            "Docker sandbox operation failed",
            seq!["daemon unreachable", "image missing", "resource limit"],
            seq!["verify /var/run/docker.sock", "build grass-agent:latest", "raise limit"],
        ),
        builtin(
            "GR-SANDBOX-0002",
            "sandbox",
            "kata",
            GrassErrorSeverity::Error,
            "Kata runtime failure",
            seq!["runtime_path invalid", "firecracker not available"],
            seq!["verify kata-runtime binary", "enable KVM"],
        ),
        builtin(
            "GR-SANDBOX-0003",
            "sandbox",
            "oci",
            GrassErrorSeverity::Error,
            "OCI bundle not found",
            seq!["bundle_path empty", "config.json missing"],
            seq!["point to valid bundle", "create config.json"],
        ),
        builtin(
            "GR-SANDBOX-0004",
            "sandbox",
            "wasm",
            GrassErrorSeverity::Error,
            "WASM instance failure",
            seq!["fuel exhausted", "memory limit hit"],
            seq!["raise fuel_limit", "optimize module"],
        ),
    ]
}

/// The built-in entries of the `streaming` domain, by code.
pub open spec fn builtin_stream() -> Seq<GrassErrorEntryView> {
    seq![
        builtin(
            "GR-STREAM-0001",
            "streaming",
            "rtsp",
            GrassErrorSeverity::Error,
            "RTSP handshake failed",
            seq!["bad URL", "camera not streaming"],
            seq!["verify rtsp:// path", "start camera stream"],
        ),
        builtin(
            "GR-STREAM-0002",
            "streaming",
            "webrtc",
            GrassErrorSeverity::Error,
            "WebRTC peer negotiation failed",
            seq!["SDP mismatch", "ICE timeout"],
            seq!["enable TURN", "restart signaling"],
        ),
    ]
}

/// The built-in entries of the `vector` domain, by code.
pub open spec fn builtin_vec() -> Seq<GrassErrorEntryView> {
    seq![
        builtin(
            "GR-VEC-0001",
            "vector",
            "chromadb",
            GrassErrorSeverity::Error,
            "ChromaDB unreachable or method missing",
            seq!["server down", "wrong collection"],
            seq!["check localhost:8000", "verify collection name"],
        ),
        builtin(
            "GR-VEC-0002",
            "vector",
            "embedding",
            GrassErrorSeverity::Error,
            "Query dimension mismatch",
            seq!["model changed", "index stale"],
            seq!["match embedding model", "re-index collection"],
        ),
    ]
}

/// Every built-in entry, in code order.
pub open spec fn builtin_entries() -> Seq<GrassErrorEntryView> {
    builtin_bc()
        + builtin_bin()
        + builtin_core()
        + builtin_flow()
        + builtin_hooks()
        + builtin_inf()
        + builtin_int()
        + builtin_iot()
        + builtin_ipc()
        + builtin_llm()
        + builtin_msg()
        + builtin_orch()
        + builtin_plugin()
        + builtin_proto()
        + builtin_runtime()
        + builtin_sandbox()
        + builtin_stream()
        + builtin_vec()
}

/// Registers one built-in entry, whose code sorts after every code
/// registered so far.
fn put(
    t: &mut GrassErrorTable,
    code: &str,
    domain: &str,
    module: &str,
    severity: GrassErrorSeverity,
    message: &str,
    causes: &[&str],
    fixes: &[&str],
)
    requires
        old(t).wf(),
        domains_match_codes(old(t)@),
        domain@ == code_domain(code@),
        old(t)@.len() > 0 ==> chars_lt(old(t)@.last().code, code@),
    ensures
        final(t).wf(),
        domains_match_codes(final(t)@),
        final(t)@ == old(t)@.push(builtin(code, domain, module, severity, message, causes@, fixes@)),
        find_entry(final(t)@, code@) is Some,
        forall|c: Seq<char>|
            #[trigger] find_entry(old(t)@, c) is Some ==> find_entry(final(t)@, c) is Some,
{
    let mut e = GrassErrorEntry::new(code, domain, module, severity, message);
    let mut i: usize = 0;
    assert(causes@.take(0) =~= Seq::<&str>::empty());
    assert(str_texts(Seq::<&str>::empty()) =~= Seq::<Seq<char>>::empty());
    while i < causes.len()
        invariant
            i <= causes.len(),
            e@ == (GrassErrorEntryView { causes: str_texts(causes@.take(i as int)), ..builtin(code, domain, module, severity, message, Seq::empty(), Seq::empty()) }),
        decreases causes.len() - i,
    {
        e = e.with_cause(causes[i]);
        assert(str_texts(causes@.take(i + 1)) =~= str_texts(causes@.take(i as int)).push(causes@[i as int]@));
        i = i + 1;
    }
    assert(causes@.take(causes.len() as int) =~= causes@);
    let mut j: usize = 0;
    assert(fixes@.take(0) =~= Seq::<&str>::empty());
    while j < fixes.len()
        invariant
            j <= fixes.len(),
            e@ == (GrassErrorEntryView { remediation: str_texts(fixes@.take(j as int)), ..builtin(code, domain, module, severity, message, causes@, Seq::empty()) }),
        decreases fixes.len() - j,
    {
        e = e.with_remediation(fixes[j]);
        assert(str_texts(fixes@.take(j + 1)) =~= str_texts(fixes@.take(j as int)).push(fixes@[j as int]@));
        j = j + 1;
    }
    assert(fixes@.take(fixes.len() as int) =~= fixes@);
    let ghost before = t@;
    let ghost ev = e@;
    assert(ev == builtin(code, domain, module, severity, message, causes@, fixes@));
    proof {
        assert forall|k: int| 0 <= k < before.len() implies chars_lt(before[k].code, ev.code) by {
            if k < before.len() - 1 {
                lemma_chars_lt_transitive(before[k].code, before.last().code, ev.code);
            }
        }
        assert forall|k: int| 0 <= k < before.len() implies before[k].code != ev.code by {
            lemma_chars_lt_irreflexive(ev.code);
        }
        if find_entry(before, ev.code) is Some {
            lemma_find_entry_some(before, ev.code);
        }
        lemma_insert_by_code_at(before, ev, before.len() as int);
        assert(before.insert(before.len() as int, ev) =~= before.push(ev));
        lemma_register_then_lookup(before, ev, ev.code);
        assert forall|c: Seq<char>| #[trigger] find_entry(before, c) is Some implies find_entry(
            before.push(ev),
            c,
        ) is Some by {
            lemma_register_then_lookup(before, ev, c);
        }
    }
    let _ = t.register(e);
    proof {
        assert forall|x: GrassErrorEntryView| #[trigger] t@.contains(x) implies x.domain == code_domain(x.code) by {
            let k = choose|k: int| 0 <= k < t@.len() && t@[k] == x;
            if k < before.len() {
                assert(before.contains(before[k]));
            }
        }
    }
}

/// Registers the built-in entries of the `blockchain` domain.
fn put_bc(t: &mut GrassErrorTable)
    requires
        old(t).wf(),
        domains_match_codes(old(t)@),
        old(t)@.len() > 0 ==> chars_lt(old(t)@.last().code, "GR-BC-0001"@),
    ensures
        final(t).wf(),
        domains_match_codes(final(t)@),
        final(t)@ == old(t)@ + builtin_bc(),
        find_entry(final(t)@, "GR-BC-0001"@) is Some,
        find_entry(final(t)@, "GR-BC-0002"@) is Some,
        find_entry(final(t)@, "GR-BC-0003"@) is Some,
        forall|c: Seq<char>|
            #[trigger] find_entry(old(t)@, c) is Some ==> find_entry(final(t)@, c) is Some,
{
    let ghost start = t@;
    proof {
        lemma_code_gr_bc_0001();
    }
    put(
        t,
        "GR-BC-0001",
        "blockchain",
        "eth",
        GrassErrorSeverity::Error,
        "Ethereum RPC call failed",
        &["node unreachable", "rate limited"],
        &["check provider endpoint", "add backoff"],
    );
    proof {
        lemma_code_gr_bc_0002();
        lemma_order_gr_bc_0001();
    }
    put(
        t,
        "GR-BC-0002",
        "blockchain",
        "tx",
        GrassErrorSeverity::Error,
        "Transaction nonce mismatch",
        &["stale nonce", "pending txs"],
        &["refresh nonce", "await mined block"],
    );
    proof {
        lemma_code_gr_bc_0003();
        lemma_order_gr_bc_0002();
    }
    put(
        t,
        "GR-BC-0003",
        "blockchain",
        "tx",
        GrassErrorSeverity::Error,
        "Gas estimation failed",
        &["insufficient balance", "revert"],
        &["fund account", "inspect revert reason"],
    );
    assert(t@ =~= start + builtin_bc());
}

/// Registers the built-in entries of the `binary` domain.
fn put_bin(t: &mut GrassErrorTable)
    requires
        old(t).wf(),
        domains_match_codes(old(t)@),
        old(t)@.len() > 0 ==> chars_lt(old(t)@.last().code, "GR-BIN-0001"@),
    ensures
        final(t).wf(),
        domains_match_codes(final(t)@),
        final(t)@ == old(t)@ + builtin_bin(),
        find_entry(final(t)@, "GR-BIN-0001"@) is Some,
        find_entry(final(t)@, "GR-BIN-0002"@) is Some,
        forall|c: Seq<char>|
            #[trigger] find_entry(old(t)@, c) is Some ==> find_entry(final(t)@, c) is Some,
{
    let ghost start = t@;
    proof {
        lemma_code_gr_bin_0001();
    }
    put(
        t,
        "GR-BIN-0001",
        "binary",
        "startup",
        GrassErrorSeverity::Error,
        "Startup configuration invalid",
        &["missing env var", "bad RUST_LOG"],
        &["set required env vars", "fix log filter"],
    );
    proof {
        lemma_code_gr_bin_0002();
        lemma_order_gr_bin_0001();
    }
    put(
        t,
        "GR-BIN-0002",
        "binary",
        "shutdown",
        GrassErrorSeverity::Warning,
        "Graceful shutdown incomplete",
        &["tasks still running", "hook drain timed out"],
        &["await task completion", "raise drain timeout"],
    );
    assert(t@ =~= start + builtin_bin());
}

/// Registers the built-in entries of the `core` domain.
fn put_core(t: &mut GrassErrorTable)
    requires
        old(t).wf(),
        domains_match_codes(old(t)@),
        old(t)@.len() > 0 ==> chars_lt(old(t)@.last().code, "GR-CORE-0001"@),
    ensures
        final(t).wf(),
        domains_match_codes(final(t)@),
        final(t)@ == old(t)@ + builtin_core(),
        find_entry(final(t)@, "GR-CORE-0001"@) is Some,
        find_entry(final(t)@, "GR-CORE-0002"@) is Some,
        find_entry(final(t)@, "GR-CORE-0003"@) is Some,
        find_entry(final(t)@, "GR-CORE-0004"@) is Some,
        find_entry(final(t)@, "GR-CORE-0005"@) is Some,
        find_entry(final(t)@, "GR-CORE-0006"@) is Some,
        find_entry(final(t)@, "GR-CORE-0007"@) is Some,
        find_entry(final(t)@, "GR-CORE-0008"@) is Some,
        find_entry(final(t)@, "GR-CORE-0009"@) is Some,
        find_entry(final(t)@, "GR-CORE-0010"@) is Some,
        forall|c: Seq<char>|
            #[trigger] find_entry(old(t)@, c) is Some ==> find_entry(final(t)@, c) is Some,
{
    let ghost start = t@;
    proof {
        lemma_code_gr_core_0001();
    }
    put(
        t,
        "GR-CORE-0001",
        "core",
        "agent",
        GrassErrorSeverity::Error,
        "Agent execution failed",
        &["start/stop transition raced", "execute panicked", "bad task payload"],
        &["inspect agent state machine", "enable RUST_LOG=debug", "replay task payload"],
    );
    proof {
        lemma_code_gr_core_0002();
        lemma_order_gr_core_0001();
    }
    put(
        t,
        "GR-CORE-0002",
        "core",
        "task",
        GrassErrorSeverity::Error,
        "Task execution failed",
        &["missing agent", "task payload invalid", "duration exceeded timeout"],
        &["validate task_id/agent_id", "raise GrassScheduler timeout", "check result.error"],
    );
    proof {
        lemma_code_gr_core_0003();
        lemma_order_gr_core_0002();
    }
    put(
        t,
        "GR-CORE-0003",
        "core",
        "plugin",
        GrassErrorSeverity::Error,
        "Plugin lifecycle error",
        &["manifest malformed", "ABI mismatch", "dependency unsatisfied"],
        &["verify GrassPluginManifest fields", "match ABI version", "fulfil declared deps"],
    );
    proof {
        lemma_code_gr_core_0004();
        lemma_order_gr_core_0003();
    }
    put(
        t,
        "GR-CORE-0004",
        "core",
        "hook",
        GrassErrorSeverity::Error,
        "Hook dispatch error",
        &["webhook endpoint unreachable", "payload not serializable"],
        &["confirm endpoint reachable", "ensure payload is JSON"],
    );
    proof {
        lemma_code_gr_core_0005();
        lemma_order_gr_core_0004();
    }
    put(
        t,
        "GR-CORE-0005",
        "core",
        "serialize",
        GrassErrorSeverity::Error,
        "Serialization failure",
        &["non-JSON payload", "field type mismatch"],
        &["inspect offending value", "use serde_json::Value for dynamic fields"],
    );
    proof {
        lemma_code_gr_core_0006();
        lemma_order_gr_core_0005();
    }
    put(
        t,
        "GR-CORE-0006",
        "core",
        "io",
        GrassErrorSeverity::Error,
        "I/O failure",
        &["file missing", "permission denied", "disk full"],
        &["check path exists", "fix file mode", "free disk space"],
    );
    proof {
        lemma_code_gr_core_0007();
        lemma_order_gr_core_0006();
    }
    put(
        t,
        "GR-CORE-0007",
        "core",
        "timeout",
        GrassErrorSeverity::Warning,
        "Operation timed out",
        &["slow upstream", "incorrect deadline", "lock contention"],
        &["raise timeout", "retry with backoff", "inspect contention"],
    );
    proof {
        lemma_code_gr_core_0008();
        lemma_order_gr_core_0007();
    }
    put(
        t,
        "GR-CORE-0008",
        "core",
        "lookup",
        GrassErrorSeverity::Info,
        "Resource not found",
        &["id mismatch", "registry empty", "stale reference"],
        &["verify id", "populate registry", "refresh references"],
    );
    proof {
        lemma_code_gr_core_0009();
        lemma_order_gr_core_0008();
    }
    put(
        t,
        "GR-CORE-0009",
        "core",
        "security",
        GrassErrorSeverity::Critical,
        "Permission denied",
        &["missing role", "revoked token", "policy denies"],
        &["assign role", "rotate credential", "review policy"],
    );
    proof {
        lemma_code_gr_core_0010();
        lemma_order_gr_core_0009();
    }
    put(
        t,
        "GR-CORE-0010",
        "core",
        "internal",
        GrassErrorSeverity::Error,
        "Unclassified internal error",
        &["bug", "invariant violation"],
        &["collect backtrace", "open issue with reproduction"],
    );
    assert(t@ =~= start + builtin_core());
}

/// Registers the built-in entries of the `flow` domain.
fn put_flow(t: &mut GrassErrorTable)
    requires
        old(t).wf(),
        domains_match_codes(old(t)@),
        old(t)@.len() > 0 ==> chars_lt(old(t)@.last().code, "GR-FLOW-0001"@),
    ensures
        final(t).wf(),
        domains_match_codes(final(t)@),
        final(t)@ == old(t)@ + builtin_flow(),
        find_entry(final(t)@, "GR-FLOW-0001"@) is Some,
        find_entry(final(t)@, "GR-FLOW-0002"@) is Some,
        forall|c: Seq<char>|
            #[trigger] find_entry(old(t)@, c) is Some ==> find_entry(final(t)@, c) is Some,
{
    let ghost start = t@;
    proof {
        lemma_code_gr_flow_0001();
    }
    put(
        t,
        "GR-FLOW-0001",
        "flow",
        "n8n",
        GrassErrorSeverity::Error,
        "N8N trigger failed",
        &["workflow inactive", "bad credentials"],
        &["activate workflow", "verify API key"],
    );
    proof {
        lemma_code_gr_flow_0002();
        lemma_order_gr_flow_0001();
    }
    put(
        t,
        "GR-FLOW-0002",
        "flow",
        "make",
        GrassErrorSeverity::Error,
        "Make.com webhook failed",
        &["webhook removed", "payload schema mismatch"],
        &["recreate webhook", "match scenario schema"],
    );
    assert(t@ =~= start + builtin_flow());
}

/// Registers the built-in entries of the `hooks` domain.
fn put_hooks(t: &mut GrassErrorTable)
    requires
        old(t).wf(),
        domains_match_codes(old(t)@),
        old(t)@.len() > 0 ==> chars_lt(old(t)@.last().code, "GR-HOOKS-0001"@),
    ensures
        final(t).wf(),
        domains_match_codes(final(t)@),
        final(t)@ == old(t)@ + builtin_hooks(),
        find_entry(final(t)@, "GR-HOOKS-0001"@) is Some,
        find_entry(final(t)@, "GR-HOOKS-0002"@) is Some,
        find_entry(final(t)@, "GR-HOOKS-0003"@) is Some,
        forall|c: Seq<char>|
            #[trigger] find_entry(old(t)@, c) is Some ==> find_entry(final(t)@, c) is Some,
{
    let ghost start = t@;
    proof {
        lemma_code_gr_hooks_0001();
    }
    put(
        t,
        "GR-HOOKS-0001",
        "hooks",
        "slack",
        GrassErrorSeverity::Error,
        "Slack webhook delivery failed",
        &["bad webhook URL", "rate limited", "channel removed"],
        &["verify incoming-webhook URL", "backoff and retry"],
    );
    proof {
        lemma_code_gr_hooks_0002();
        lemma_order_gr_hooks_0001();
    }
    put(
        t,
        "GR-HOOKS-0002",
        "hooks",
        "discord",
        GrassErrorSeverity::Error,
        "Discord webhook delivery failed",
        &["webhook token invalid", "content too long"],
        &["recreate webhook", "truncate message"],
    );
    proof {
        lemma_code_gr_hooks_0003();
        lemma_order_gr_hooks_0002();
    }
    put(
        t,
        "GR-HOOKS-0003",
        "hooks",
        "webhook",
        GrassErrorSeverity::Error,
        "Generic webhook delivery failed",
        &["endpoint 4xx/5xx", "timeout", "TLS error"],
        &["inspect status code", "raise timeout", "check certificate"],
    );
    assert(t@ =~= start + builtin_hooks());
}

/// Registers the built-in entries of the `inference` domain.
fn put_inf(t: &mut GrassErrorTable)
    requires
        old(t).wf(),
        domains_match_codes(old(t)@),
        old(t)@.len() > 0 ==> chars_lt(old(t)@.last().code, "GR-INF-0001"@),
    ensures
        final(t).wf(),
        domains_match_codes(final(t)@),
        final(t)@ == old(t)@ + builtin_inf(),
        find_entry(final(t)@, "GR-INF-0001"@) is Some,
        find_entry(final(t)@, "GR-INF-0002"@) is Some,
        forall|c: Seq<char>|
            #[trigger] find_entry(old(t)@, c) is Some ==> find_entry(final(t)@, c) is Some,
{
    let ghost start = t@;
    proof {
        lemma_code_gr_inf_0001();
    }
    put(
        t,
        "GR-INF-0001",
        "inference",
        "tensorrt",
        GrassErrorSeverity::Error,
        "TensorRT engine failed",
        &["engine version mismatch", "GPU unsupported"],
        &["rebuild engine", "match TensorRT version"],
    );
    proof {
        lemma_code_gr_inf_0002();
        lemma_order_gr_inf_0001();
    }
    put(
        t,
        "GR-INF-0002",
        "inference",
        "onnx",
        GrassErrorSeverity::Error,
        "ONNX runtime session failed",
        &["model path missing", "opset unsupported"],
        &["verify .onnx path", "re-export model"],
    );
    assert(t@ =~= start + builtin_inf());
}

/// Registers the built-in entries of the `integrations` domain.
fn put_int(t: &mut GrassErrorTable)
    requires
        old(t).wf(),
        domains_match_codes(old(t)@),
        old(t)@.len() > 0 ==> chars_lt(old(t)@.last().code, "GR-INT-0001"@),
    ensures
        final(t).wf(),
        domains_match_codes(final(t)@),
        final(t)@ == old(t)@ + builtin_int(),
        find_entry(final(t)@, "GR-INT-0001"@) is Some,
        find_entry(final(t)@, "GR-INT-0002"@) is Some,
        find_entry(final(t)@, "GR-INT-0003"@) is Some,
        forall|c: Seq<char>|
            #[trigger] find_entry(old(t)@, c) is Some ==> find_entry(final(t)@, c) is Some,
{
    let ghost start = t@;
    proof {
        lemma_code_gr_int_0001();
    }
    put(
        t,
        "GR-INT-0001",
        "integrations",
        "ondc",
        GrassErrorSeverity::Error,
        "ONDC subscribe failed",
        &["invalid signing pub key", "callback unreachable"],
        &["verify pub key", "expose callback URL"],
    );
    proof {
        lemma_code_gr_int_0002();
        lemma_order_gr_int_0001();
    }
    put(
        t,
        "GR-INT-0002",
        "integrations",
        "ipfs",
        GrassErrorSeverity::Error,
        "IPFS pin failed",
        &["node offline", "content too large"],
        &["check ipfs daemon", "chunk upload"],
    );
    proof {
        lemma_code_gr_int_0003();
        lemma_order_gr_int_0002();
    }
    put(
        t,
        "GR-INT-0003",
        "integrations",
        "fiss",
        GrassErrorSeverity::Error,
        "FISS registration failed",
        &["gstin invalid", "HSN mismatch"],
        &["validate GSTIN", "correct HSN mapping"],
    );
    assert(t@ =~= start + builtin_int());
}

/// Registers the built-in entries of the `iot` domain.
fn put_iot(t: &mut GrassErrorTable)
    requires
        old(t).wf(),
        domains_match_codes(old(t)@),
        old(t)@.len() > 0 ==> chars_lt(old(t)@.last().code, "GR-IOT-0001"@),
    ensures
        final(t).wf(),
        domains_match_codes(final(t)@),
        final(t)@ == old(t)@ + builtin_iot(),
        find_entry(final(t)@, "GR-IOT-0001"@) is Some,
        find_entry(final(t)@, "GR-IOT-0002"@) is Some,
        forall|c: Seq<char>|
            #[trigger] find_entry(old(t)@, c) is Some ==> find_entry(final(t)@, c) is Some,
{
    let ghost start = t@;
    proof {
        lemma_code_gr_iot_0001();
    }
    put(
        t,
        "GR-IOT-0001",
        "iot",
        "mqtt",
        GrassErrorSeverity::Error,
        "MQTT connection lost",
        &["broker down", "credentials rejected"],
        &["check broker health", "verify user/pass"],
    );
    proof {
        lemma_code_gr_iot_0002();
        lemma_order_gr_iot_0001();
    }
    put(
        t,
        "GR-IOT-0002",
        "iot",
        "modbus",
        GrassErrorSeverity::Error,
        "Modbus slave timeout",
        &["slave offline", "address range invalid"],
        &["ping slave device", "fix register address"],
    );
    assert(t@ =~= start + builtin_iot());
}

/// Registers the built-in entries of the `ipc` domain.
fn put_ipc(t: &mut GrassErrorTable)
    requires
        old(t).wf(),
        domains_match_codes(old(t)@),
        old(t)@.len() > 0 ==> chars_lt(old(t)@.last().code, "GR-IPC-0001"@),
    ensures
        final(t).wf(),
        domains_match_codes(final(t)@),
        final(t)@ == old(t)@ + builtin_ipc(),
        find_entry(final(t)@, "GR-IPC-0001"@) is Some,
        find_entry(final(t)@, "GR-IPC-0002"@) is Some,
        find_entry(final(t)@, "GR-IPC-0003"@) is Some,
        forall|c: Seq<char>|
            #[trigger] find_entry(old(t)@, c) is Some ==> find_entry(final(t)@, c) is Some,
{
    let ghost start = t@;
    proof {
        lemma_code_gr_ipc_0001();
    }
    put(
        t,
        "GR-IPC-0001",
        "ipc",
        "zmq",
        GrassErrorSeverity::Error,
        "ZeroMQ transport failure",
        &["socket bind conflict", "peer disconnected"],
        &["change endpoint", "reconnect with retry"],
    );
    proof {
        lemma_code_gr_ipc_0002();
        lemma_order_gr_ipc_0001();
    }
    put(
        t,
        "GR-IPC-0002",
        "ipc",
        "valkey",
        GrassErrorSeverity::Error,
        "Valkey transport failure",
        &["server down", "auth failed"],
        &["check valkey health", "verify credentials"],
    );
    proof {
        lemma_code_gr_ipc_0003();
        lemma_order_gr_ipc_0002();
    }
    put(
        t,
        "GR-IPC-0003",
        "ipc",
        "shm",
        GrassErrorSeverity::Error,
        "Shared memory transport failure",
        &["region unavailable", "size overflow"],
        &["check /dev/shm space", "reduce payload size"],
    );
    assert(t@ =~= start + builtin_ipc());
}

/// Registers the built-in entries of the `llm` domain.
fn put_llm(t: &mut GrassErrorTable)
    requires
        old(t).wf(),
        domains_match_codes(old(t)@),
        old(t)@.len() > 0 ==> chars_lt(old(t)@.last().code, "GR-LLM-0001"@),
    ensures
        final(t).wf(),
        domains_match_codes(final(t)@),
        final(t)@ == old(t)@ + builtin_llm(),
        find_entry(final(t)@, "GR-LLM-0001"@) is Some,
        find_entry(final(t)@, "GR-LLM-0002"@) is Some,
        find_entry(final(t)@, "GR-LLM-0003"@) is Some,
        find_entry(final(t)@, "GR-LLM-0004"@) is Some,
        find_entry(final(t)@, "GR-LLM-0005"@) is Some,
        forall|c: Seq<char>|
            #[trigger] find_entry(old(t)@, c) is Some ==> find_entry(final(t)@, c) is Some,
{
    let ghost start = t@;
    proof {
        lemma_code_gr_llm_0001();
    }
    put(
        t,
        "GR-LLM-0001",
        "llm",
        "service",
        GrassErrorSeverity::Error,
        "LLM provider not found",
        &["provider not registered", "name typo"],
        &["check GrassLlmService::register_provider calls", "verify provider name"],
    );
    proof {
        lemma_code_gr_llm_0002();
        lemma_order_gr_llm_0001();
    }
    put(
        t,
        "GR-LLM-0002",
        "llm",
        "provider",
        GrassErrorSeverity::Error,
        "LLM API request failed",
        &["invalid API key", "network error", "rate limited", "quota exhausted"],
        &["rotate key", "retry with backoff", "check provider status page"],
    );
    proof {
        lemma_code_gr_llm_0003();
        lemma_order_gr_llm_0002();
    }
    put(
        t,
        "GR-LLM-0003",
        "llm",
        "provider",
        GrassErrorSeverity::Error,
        "LLM response parse failed",
        &["schema drift", "empty body", "wrong endpoint"],
        &["pin a model version", "log raw response body", "verify endpoint"],
    );
    proof {
        lemma_code_gr_llm_0004();
        lemma_order_gr_llm_0003();
    }
    put(
        t,
        "GR-LLM-0004",
        "llm",
        "stream",
        GrassErrorSeverity::Info,
        "Streaming not supported by provider",
        &["provider lacks SSE", "feature disabled"],
        &["use complete() fallback", "enable stream flag"],
    );
    proof {
        lemma_code_gr_llm_0005();
        lemma_order_gr_llm_0004();
    }
    put(
        t,
        "GR-LLM-0005",
        "llm",
        "provider",
        GrassErrorSeverity::Warning,
        "Empty choices returned",
        &["max_tokens too low", "model refusal"],
        &["raise max_tokens", "inspect finish_reason"],
    );
    assert(t@ =~= start + builtin_llm());
}

/// Registers the built-in entries of the `messaging` domain.
fn put_msg(t: &mut GrassErrorTable)
    requires
        old(t).wf(),
        domains_match_codes(old(t)@),
        old(t)@.len() > 0 ==> chars_lt(old(t)@.last().code, "GR-MSG-0001"@),
    ensures
        final(t).wf(),
        domains_match_codes(final(t)@),
        final(t)@ == old(t)@ + builtin_msg(),
        find_entry(final(t)@, "GR-MSG-0001"@) is Some,
        find_entry(final(t)@, "GR-MSG-0002"@) is Some,
        find_entry(final(t)@, "GR-MSG-0003"@) is Some,
        forall|c: Seq<char>|
            #[trigger] find_entry(old(t)@, c) is Some ==> find_entry(final(t)@, c) is Some,
{
    let ghost start = t@;
    proof {
        lemma_code_gr_msg_0001();
    }
    put(
        t,
        "GR-MSG-0001",
        "messaging",
        "kafka",
        GrassErrorSeverity::Error,
        "Kafka producer send failed",
        &["broker down", "topic missing", "acks timeout"],
        &["check brokers list", "create topic", "increase request timeouts"],
    );
    proof {
        lemma_code_gr_msg_0002();
        lemma_order_gr_msg_0001();
    }
    put(
        t,
        "GR-MSG-0002",
        "messaging",
        "kafka",
        GrassErrorSeverity::Error,
        "Kafka consumer failed",
        &["group rebalance", "offset out of range"],
        &["reset offsets", "handle rebalance events"],
    );
    proof {
        lemma_code_gr_msg_0003();
        lemma_order_gr_msg_0002();
    }
    put(
        t,
        "GR-MSG-0003",
        "messaging",
        "qmqp",
        GrassErrorSeverity::Error,
        "QMQP channel failed",
        &["broker closed channel", "invalid route"],
        &["reconnect channel", "verify routing key"],
    );
    assert(t@ =~= start + builtin_msg());
}

/// Registers the built-in entries of the `orchestrator` domain.
fn put_orch(t: &mut GrassErrorTable)
    requires
        old(t).wf(),
        domains_match_codes(old(t)@),
        old(t)@.len() > 0 ==> chars_lt(old(t)@.last().code, "GR-ORCH-0001"@),
    ensures
        final(t).wf(),
        domains_match_codes(final(t)@),
        final(t)@ == old(t)@ + builtin_orch(),
        find_entry(final(t)@, "GR-ORCH-0001"@) is Some,
        find_entry(final(t)@, "GR-ORCH-0002"@) is Some,
        find_entry(final(t)@, "GR-ORCH-0003"@) is Some,
        forall|c: Seq<char>|
            #[trigger] find_entry(old(t)@, c) is Some ==> find_entry(final(t)@, c) is Some,
{
    let ghost start = t@;
    proof {
        lemma_code_gr_orch_0001();
    }
    put(
        t,
        "GR-ORCH-0001",
        "orchestrator",
        "graph",
        GrassErrorSeverity::Critical,
        "Task graph cycle detected",
        &["edge misconfigured", "self-loop"],
        &["run topological sort", "remove cyclic edge"],
    );
    proof {
        lemma_code_gr_orch_0002();
        lemma_order_gr_orch_0001();
    }
    put(
        t,
        "GR-ORCH-0002",
        "orchestrator",
        "crew",
        GrassErrorSeverity::Error,
        "Crew agent unassigned",
        &["agent died", "task not mapped to agent"],
        &["restart agent", "call assign_task"],
    );
    proof {
        lemma_code_gr_orch_0003();
        lemma_order_gr_orch_0002();
    }
    put(
        t,
        "GR-ORCH-0003",
        "orchestrator",
        "dag",
        GrassErrorSeverity::Error,
        "Execution DAG resolution failed",
        &["multiple entry points", "missing node"],
        &["declare single root", "add missing node"],
    );
    assert(t@ =~= start + builtin_orch());
}

/// Registers the built-in entries of the `plugin` domain.
fn put_plugin(t: &mut GrassErrorTable)
    requires
        old(t).wf(),
        domains_match_codes(old(t)@),
        old(t)@.len() > 0 ==> chars_lt(old(t)@.last().code, "GR-PLUGIN-0001"@),
    ensures
        final(t).wf(),
        domains_match_codes(final(t)@),
        final(t)@ == old(t)@ + builtin_plugin(),
        find_entry(final(t)@, "GR-PLUGIN-0001"@) is Some,
        find_entry(final(t)@, "GR-PLUGIN-0002"@) is Some,
        find_entry(final(t)@, "GR-PLUGIN-0003"@) is Some,
        forall|c: Seq<char>|
            #[trigger] find_entry(old(t)@, c) is Some ==> find_entry(final(t)@, c) is Some,
{
    let ghost start = t@;
    proof {
        lemma_code_gr_plugin_0001();
    }
    put(
        t,
        "GR-PLUGIN-0001",
        "plugin",
        "loader",
        GrassErrorSeverity::Error,
        "Dynamic plugin load failed",
        &["library incompatible", "never loaded symbol"],
        &["match ABI/version", "verify .so exports"],
    );
    proof {
        lemma_code_gr_plugin_0002();
        lemma_order_gr_plugin_0001();
    }
    put(
        t,
        "GR-PLUGIN-0002",
        "plugin",
        "manifest",
        GrassErrorSeverity::Error,
        "Plugin manifest invalid",
        &["missing name/version", "unparseable schema"],
        &["validate GrassPluginManifest", "fix schema"],
    );
    proof {
        lemma_code_gr_plugin_0003();
        lemma_order_gr_plugin_0002();
    }
    put(
        t,
        "GR-PLUGIN-0003",
        "plugin",
        "registry",
        GrassErrorSeverity::Error,
        "Plugin registration conflict",
        &["duplicate name", "version downgrade"],
        &["choose unique name", "bump version"],
    );
    assert(t@ =~= start + builtin_plugin());
}

/// Registers the built-in entries of the `protocol` domain.
fn put_proto(t: &mut GrassErrorTable)
    requires
        old(t).wf(),
        domains_match_codes(old(t)@),
        old(t)@.len() > 0 ==> chars_lt(old(t)@.last().code, "GR-PROTO-0001"@),
    ensures
        final(t).wf(),
        domains_match_codes(final(t)@),
        final(t)@ == old(t)@ + builtin_proto(),
        find_entry(final(t)@, "GR-PROTO-0001"@) is Some,
        find_entry(final(t)@, "GR-PROTO-0002"@) is Some,
        find_entry(final(t)@, "GR-PROTO-0003"@) is Some,
        forall|c: Seq<char>|
            #[trigger] find_entry(old(t)@, c) is Some ==> find_entry(final(t)@, c) is Some,
{
    let ghost start = t@;
    proof {
        lemma_code_gr_proto_0001();
    }
    put(
        t,
        "GR-PROTO-0001",
        "protocol",
        "mcp",
        GrassErrorSeverity::Error,
        "MCP frame encode/decode failed",
        &["malformed JSON-RPC", "missing id or method"],
        &["validate GrassMcpRequest", "use GrassMcpCodec decode round-trip"],
    );
    proof {
        lemma_code_gr_proto_0002();
        lemma_order_gr_proto_0001();
    }
    put(
        t,
        "GR-PROTO-0002",
        "protocol",
        "acp",
        GrassErrorSeverity::Error,
        "ACP routing failed",
        &["unknown command", "payload mismatch"],
        &["register command handler", "validate envelope"],
    );
    proof {
        lemma_code_gr_proto_0003();
        lemma_order_gr_proto_0002();
    }
    put(
        t,
        "GR-PROTO-0003",
        "protocol",
        "grpc",
        GrassErrorSeverity::Error,
        "gRPC registry miss",
        &["service not registered", "protobuf mismatch"],
        &["register service in GrassGrpcRegistry", "regenerate protos"],
    );
    assert(t@ =~= start + builtin_proto());
}

/// Registers the built-in entries of the `runtime` domain.
fn put_runtime(t: &mut GrassErrorTable)
    requires
        old(t).wf(),
        domains_match_codes(old(t)@),
        old(t)@.len() > 0 ==> chars_lt(old(t)@.last().code, "GR-RUNTIME-0001"@),
    ensures
        final(t).wf(),
        domains_match_codes(final(t)@),
        final(t)@ == old(t)@ + builtin_runtime(),
        find_entry(final(t)@, "GR-RUNTIME-0001"@) is Some,
        find_entry(final(t)@, "GR-RUNTIME-0002"@) is Some,
        find_entry(final(t)@, "GR-RUNTIME-0003"@) is Some,
        forall|c: Seq<char>|
            #[trigger] find_entry(old(t)@, c) is Some ==> find_entry(final(t)@, c) is Some,
{
    let ghost start = t@;
    proof {
        lemma_code_gr_runtime_0001();
    }
    put(
        t,
        "GR-RUNTIME-0001",
        "runtime",
        "executor",
        GrassErrorSeverity::Error,
        "Executor queue saturated",
        &["worker pool exhausted", "blocked tasks"],
        &["increase GrassTaskExecutor worker count", "add timeouts to tasks"],
    );
    proof {
        lemma_code_gr_runtime_0002();
        lemma_order_gr_runtime_0001();
    }
    put(
        t,
        "GR-RUNTIME-0002",
        "runtime",
        "scheduler",
        GrassErrorSeverity::Warning,
        "Scheduler ordering conflict",
        &["priority inversion", "duplicate enqueue"],
        &["duplicate-id check", "rebalance priorities"],
    );
    proof {
        lemma_code_gr_runtime_0003();
        lemma_order_gr_runtime_0002();
    }
    put(
        t,
        "GR-RUNTIME-0003",
        "runtime",
        "timer",
        GrassErrorSeverity::Info,
        "Timer cancelled or expired",
        &["deadline passed", "timer reset"],
        &["use monotonic clock", "restart timer"],
    );
    assert(t@ =~= start + builtin_runtime());
}

/// Registers the built-in entries of the `sandbox` domain.
fn put_sandbox(t: &mut GrassErrorTable)
    requires
        old(t).wf(),
        domains_match_codes(old(t)@),
        old(t)@.len() > 0 ==> chars_lt(old(t)@.last().code, "GR-SANDBOX-0001"@),
    ensures
        final(t).wf(),
        domains_match_codes(final(t)@),
        final(t)@ == old(t)@ + builtin_sandbox(),
        find_entry(final(t)@, "GR-SANDBOX-0001"@) is Some,
        find_entry(final(t)@, "GR-SANDBOX-0002"@) is Some,
        find_entry(final(t)@, "GR-SANDBOX-0003"@) is Some,
        find_entry(final(t)@, "GR-SANDBOX-0004"@) is Some,
        forall|c: Seq<char>|
            #[trigger] find_entry(old(t)@, c) is Some ==> find_entry(final(t)@, c) is Some,
{
    let ghost start = t@;
    proof {
        lemma_code_gr_sandbox_0001();
    }
    put(
        t,
        "GR-SANDBOX-0001",
        "sandbox",
        "docker",
        GrassErrorSeverity::Error,
        "Docker sandbox operation failed",
        &["daemon unreachable", "image missing", "resource limit"],
        &["verify /var/run/docker.sock", "build grass-agent:latest", "raise limit"],
    );
    proof {
        lemma_code_gr_sandbox_0002();
        lemma_order_gr_sandbox_0001();
    }
    put(
        t,
        "GR-SANDBOX-0002",
        "sandbox",
        "kata",
        GrassErrorSeverity::Error,
        "Kata runtime failure",
        &["runtime_path invalid", "firecracker not available"],
        &["verify kata-runtime binary", "enable KVM"],
    );
    proof {
        lemma_code_gr_sandbox_0003();
        lemma_order_gr_sandbox_0002();
    }
    put(
        t,
        "GR-SANDBOX-0003",
        "sandbox",
        "oci",
        GrassErrorSeverity::Error,
        "OCI bundle not found",
        &["bundle_path empty", "config.json missing"],
        &["point to valid bundle", "create config.json"],
    );
    proof {
        lemma_code_gr_sandbox_0004();
        lemma_order_gr_sandbox_0003();
    }
    put(
        t,
        "GR-SANDBOX-0004",
        "sandbox",
        "wasm",
        GrassErrorSeverity::Error,
        "WASM instance failure",
        &["fuel exhausted", "memory limit hit"],
        &["raise fuel_limit", "optimize module"],
    );
    assert(t@ =~= start + builtin_sandbox());
}

/// Registers the built-in entries of the `streaming` domain.
fn put_stream(t: &mut GrassErrorTable)
    requires
        old(t).wf(),
        domains_match_codes(old(t)@),
        old(t)@.len() > 0 ==> chars_lt(old(t)@.last().code, "GR-STREAM-0001"@),
    ensures
        final(t).wf(),
        domains_match_codes(final(t)@),
        final(t)@ == old(t)@ + builtin_stream(),
        find_entry(final(t)@, "GR-STREAM-0001"@) is Some,
        find_entry(final(t)@, "GR-STREAM-0002"@) is Some,
        forall|c: Seq<char>|
            #[trigger] find_entry(old(t)@, c) is Some ==> find_entry(final(t)@, c) is Some,
{
    let ghost start = t@;
    proof {
        lemma_code_gr_stream_0001();
    }
    put(
        t,
        "GR-STREAM-0001",
        "streaming",
        "rtsp",
        GrassErrorSeverity::Error,
        "RTSP handshake failed",
        &["bad URL", "camera not streaming"],
        &["verify rtsp:// path", "start camera stream"],
    );
    proof {
        lemma_code_gr_stream_0002();
        lemma_order_gr_stream_0001();
    }
    put(
        t,
        "GR-STREAM-0002",
        "streaming",
        "webrtc",
        GrassErrorSeverity::Error,
        "WebRTC peer negotiation failed",
        &["SDP mismatch", "ICE timeout"],
        &["enable TURN", "restart signaling"],
    );
    assert(t@ =~= start + builtin_stream());
}

/// Registers the built-in entries of the `vector` domain.
fn put_vec(t: &mut GrassErrorTable)
    requires
        old(t).wf(),
        domains_match_codes(old(t)@),
        old(t)@.len() > 0 ==> chars_lt(old(t)@.last().code, "GR-VEC-0001"@),
    ensures
        final(t).wf(),
        domains_match_codes(final(t)@),
        final(t)@ == old(t)@ + builtin_vec(),
        find_entry(final(t)@, "GR-VEC-0001"@) is Some,
        find_entry(final(t)@, "GR-VEC-0002"@) is Some,
        forall|c: Seq<char>|
            #[trigger] find_entry(old(t)@, c) is Some ==> find_entry(final(t)@, c) is Some,
{
    let ghost start = t@;
    proof {
        lemma_code_gr_vec_0001();
    }
    put(
        t,
        "GR-VEC-0001",
        "vector",
        "chromadb",
        GrassErrorSeverity::Error,
        "ChromaDB unreachable or method missing",
        &["server down", "wrong collection"],
        &["check localhost:8000", "verify collection name"],
    );
    proof {
        lemma_code_gr_vec_0002();
        lemma_order_gr_vec_0001();
    }
    put(
        t,
        "GR-VEC-0002",
        "vector",
        "embedding",
        GrassErrorSeverity::Error,
        "Query dimension mismatch",
        &["model changed", "index stale"],
        &["match embedding model", "re-index collection"],
    );
    assert(t@ =~= start + builtin_vec());
}

/// The built-in table of every documented framework error code: exactly
/// the built-in entries, in code order. Every kind of `GrassError` has its
/// code in it, and every entry's domain is the one that its code names.
#[verifier::rlimit(60)]
pub fn register_builtin_errors() -> (t: GrassErrorTable)
    ensures
        t.wf(),
        t@ == builtin_entries(),
        t@.len() == 58,
        domains_match_codes(t@),
        forall|e: GrassError| find_entry(t@, #[trigger] error_code(e)) is Some,
{
    let mut t = GrassErrorTable::new();
    put_bc(&mut t);
    proof {
        lemma_order_gr_bc_0003();
    }
    put_bin(&mut t);
    proof {
        lemma_order_gr_bin_0002();
    }
    put_core(&mut t);
    proof {
        lemma_order_gr_core_0010();
    }
    put_flow(&mut t);
    proof {
        lemma_order_gr_flow_0002();
    }
    put_hooks(&mut t);
    proof {
        lemma_order_gr_hooks_0003();
    }
    put_inf(&mut t);
    proof {
        lemma_order_gr_inf_0002();
    }
    put_int(&mut t);
    proof {
        lemma_order_gr_int_0003();
    }
    put_iot(&mut t);
    proof {
        lemma_order_gr_iot_0002();
    }
    put_ipc(&mut t);
    proof {
        lemma_order_gr_ipc_0003();
    }
    put_llm(&mut t);
    proof {
        lemma_order_gr_llm_0005();
    }
    put_msg(&mut t);
    proof {
        lemma_order_gr_msg_0003();
    }
    put_orch(&mut t);
    proof {
        lemma_order_gr_orch_0003();
    }
    put_plugin(&mut t);
    proof {
        lemma_order_gr_plugin_0003();
    }
    put_proto(&mut t);
    proof {
        lemma_order_gr_proto_0003();
    }
    put_runtime(&mut t);
    proof {
        lemma_order_gr_runtime_0003();
    }
    put_sandbox(&mut t);
    proof {
        lemma_order_gr_sandbox_0004();
    }
    put_stream(&mut t);
    proof {
        lemma_order_gr_stream_0002();
    }
    put_vec(&mut t);
    assert(Seq::<GrassErrorEntryView>::empty() + builtin_bc() =~= builtin_bc());
    assert(find_entry(t@, "GR-CORE-0001"@) is Some);
    assert(find_entry(t@, "GR-CORE-0002"@) is Some);
    assert(find_entry(t@, "GR-CORE-0003"@) is Some);
    assert(find_entry(t@, "GR-CORE-0004"@) is Some);
    assert(find_entry(t@, "GR-PROTO-0001"@) is Some);
    assert(find_entry(t@, "GR-IPC-0001"@) is Some);
    assert(find_entry(t@, "GR-SANDBOX-0001"@) is Some);
    assert(find_entry(t@, "GR-LLM-0001"@) is Some);
    assert(find_entry(t@, "GR-INF-0001"@) is Some);
    assert(find_entry(t@, "GR-BC-0001"@) is Some);
    assert(find_entry(t@, "GR-IOT-0001"@) is Some);
    assert(find_entry(t@, "GR-STREAM-0001"@) is Some);
    assert(find_entry(t@, "GR-VEC-0001"@) is Some);
    assert(find_entry(t@, "GR-INT-0001"@) is Some);
    assert(find_entry(t@, "GR-FLOW-0001"@) is Some);
    assert(find_entry(t@, "GR-MSG-0001"@) is Some);
    assert(find_entry(t@, "GR-CORE-0005"@) is Some);
    assert(find_entry(t@, "GR-CORE-0006"@) is Some);
    assert(find_entry(t@, "GR-CORE-0007"@) is Some);
    assert(find_entry(t@, "GR-CORE-0008"@) is Some);
    assert(find_entry(t@, "GR-CORE-0009"@) is Some);
    assert(find_entry(t@, "GR-CORE-0010"@) is Some);
    assert forall|e: GrassError| find_entry(t@, #[trigger] error_code(e)) is Some by {
        match e {
            GrassError::Agent(_) => {},
            GrassError::Task(_) => {},
            GrassError::Plugin(_) => {},
            GrassError::Hook(_) => {},
            GrassError::Protocol(_) => {},
            GrassError::Ipc(_) => {},
            GrassError::Sandbox(_) => {},
            GrassError::Llm(_) => {},
            GrassError::Inference(_) => {},
            GrassError::Blockchain(_) => {},
            GrassError::Iot(_) => {},
            GrassError::Streaming(_) => {},
            GrassError::VectorDb(_) => {},
            GrassError::Integration(_) => {},
            GrassError::Flow(_) => {},
            GrassError::Messaging(_) => {},
            GrassError::Serialization(_) => {},
            GrassError::Io(_) => {},
            GrassError::Timeout(_) => {},
            GrassError::NotFound(_) => {},
            GrassError::PermissionDenied(_) => {},
            GrassError::Internal(_) => {},
        }
    }
    t
}

/// Holds the process-wide error table once it has been set up.
pub struct GrassErrorTableSlot {
    table: Option<GrassErrorTable>,
}

impl GrassErrorTableSlot {
    /// The table held, if the slot is set.
    pub closed spec fn value(&self) -> Option<Seq<GrassErrorEntryView>> {
        match self.table {
            Some(t) => Some(t@),
            None => None,
        }
    }

    /// The held table, when there is one, is well formed.
    pub closed spec fn wf(&self) -> bool {
        match self.table {
            Some(t) => t.wf(),
            None => true,
        }
    }

    /// An empty slot.
    pub fn new() -> (r: Self)
        ensures
            r.wf(),
            r.value() is None,
    {
        GrassErrorTableSlot { table: None }
    }
}

/// The process-wide error table: the built-in table, set up on first use,
/// unless another table was installed before.
pub fn grass_error_table(slot: &mut GrassErrorTableSlot) -> (r: &GrassErrorTable)
    requires
        old(slot).wf(),
    ensures
        final(slot).wf(),
        final(slot).value() == Some(r@),
        old(slot).value() matches Some(v) ==> r@ == v,
        old(slot).value() is None ==> r@ == builtin_entries(),
        old(slot).value() is None ==> forall|e: GrassError|
            find_entry(r@, #[trigger] error_code(e)) is Some,
        r.wf(),
        old(slot).value() is None ==> domains_match_codes(r@),
{
    if slot.table.is_none() {
        slot.table = Some(register_builtin_errors());
    }
    slot.table.as_ref().unwrap()
}

/// Installs `table`, whatever entries it holds, as the process-wide error
/// table; refused, leaving the slot as it was, once a table is set up.
pub fn reload_grass_error_table(slot: &mut GrassErrorTableSlot, table: GrassErrorTable) -> (r:
    Result<(), GrassError>)
    requires
        old(slot).wf(),
        table.wf(),
    ensures
        final(slot).wf(),
        old(slot).value() is None ==> r is Ok && final(slot).value() == Some(table@),
        old(slot).value() is Some ==> final(slot).value() == old(slot).value() && (
        r matches Err(GrassError::Internal(m)) && m@ == "global error table already initialized"@),
{
    if slot.table.is_some() {
        return Err(GrassError::Internal("global error table already initialized".to_owned()));
    }
    slot.table = Some(table);
    Ok(())
}


impl GrassError {
    /// The entry documenting this error in the process-wide table (set up
    /// with the built-in table on first use). With the built-in table there
    /// always is one, and its domain is the error's domain.
    pub fn entry<'a>(&self, slot: &'a mut GrassErrorTableSlot) -> (r: Option<&'a GrassErrorEntry>)
        requires
            old(slot).wf(),
        ensures
            final(slot).wf(),
            old(slot).value() matches Some(v) ==> final(slot).value() == Some(v),
            final(slot).value() matches Some(t) && match r {
                Some(e) => find_entry(t, error_code(*self)) == Some(e@),
                None => find_entry(t, error_code(*self)) is None,
            },
            old(slot).value() is None ==> (r matches Some(e) && e@.domain == code_domain(
                error_code(*self),
            )),
    {
        let table = grass_error_table(slot);
        let r = table.lookup(self.code());
        proof {
            if find_entry(table@, error_code(*self)) is Some {
                lemma_find_entry_some(table@, error_code(*self));
                let k = choose|k: int|
                    0 <= k < table@.len() && table@[k].code == error_code(*self) && find_entry(
                        table@,
                        error_code(*self),
                    ) == Some(table@[k]);
                assert(table@.contains(table@[k]));
            }
        }
        r
    }
}

} // verus!
