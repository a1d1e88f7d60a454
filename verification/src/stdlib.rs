//! The runtime standard library's symbol tables: every C-ABI entry point the
//! compiled programs may link against, registered into the symbol registry
//! under its canonical name. The function bodies behind the mangled symbols
//! live with the embedding runtime; the tables here are what the code
//! generator consults.

use vstd::prelude::*;

use crate::registry::{FfiFunction, FfiSignature, FfiType, SymbolRegistry};

verus! {

/// `name` resolves to an entry with exactly this symbol and signature.
pub open spec fn spec_registered(
    r: SymbolRegistry,
    name: Seq<char>,
    symbol: Seq<char>,
    params: Seq<FfiType>,
    result: FfiType,
) -> bool {
    r.spec_resolve(name) matches Some(f)
        && f.symbol@ == symbol
        && f.signature.params@ =~= params
        && f.signature.result == result
}

/// Builds one entry and upserts it.
fn reg(
    registry: &mut SymbolRegistry,
    name: &str,
    symbol: &str,
    params: Vec<FfiType>,
    result: FfiType,
)
    requires
        old(registry).wf(),
    ensures
        final(registry).wf(),
        spec_registered(*final(registry), name@, symbol@, params@, result),
        forall|n: Seq<char>|
            n != name@ ==> final(registry).spec_resolve(n) == old(registry).spec_resolve(n),
{
    let f = FfiFunction {
        name: String::from_str(name),
        symbol: String::from_str(symbol),
        signature: FfiSignature::new(params, result),
    };
    registry.register(f);
}

/// The table that `register_builtin_symbols` establishes.
pub open spec fn builtin_symbols_registered(r: SymbolRegistry) -> bool {
    &&& spec_registered(r, "len"@, "otter_builtin_len_string"@, seq![FfiType::Str], FfiType::I64)
    &&& spec_registered(r, "len<list>"@, "otter_builtin_len_list"@, seq![FfiType::Opaque], FfiType::I64)
    &&& spec_registered(r, "len<map>"@, "otter_builtin_len_map"@, seq![FfiType::Opaque], FfiType::I64)
    &&& spec_registered(r, "cap"@, "otter_builtin_cap_string"@, seq![FfiType::Str], FfiType::I64)
    &&& spec_registered(r, "cap<list>"@, "otter_builtin_cap_list"@, seq![FfiType::Opaque], FfiType::I64)
    &&& spec_registered(r, "append<list,string>"@, "otter_builtin_append_list_string"@, seq![FfiType::Opaque, FfiType::Str], FfiType::I32)
    &&& spec_registered(r, "append<list,int>"@, "otter_builtin_append_list_int"@, seq![FfiType::Opaque, FfiType::I64], FfiType::I32)
    &&& spec_registered(r, "append<list,float>"@, "otter_builtin_append_list_float"@, seq![FfiType::Opaque, FfiType::F64], FfiType::I32)
    &&& spec_registered(r, "delete<map>"@, "otter_builtin_delete_map"@, seq![FfiType::Opaque, FfiType::Str], FfiType::I32)
    &&& spec_registered(r, "range<int>"@, "otter_builtin_range_int"@, seq![FfiType::I64, FfiType::I64], FfiType::Opaque)
    &&& spec_registered(r, "range<float>"@, "otter_builtin_range_float"@, seq![FfiType::F64, FfiType::F64], FfiType::Opaque)
    &&& spec_registered(r, "enumerate<list>"@, "otter_builtin_enumerate_list"@, seq![FfiType::Opaque], FfiType::Opaque)
    &&& spec_registered(r, "list.new"@, "otter_builtin_list_new"@, Seq::<FfiType>::empty(), FfiType::Opaque)
    &&& spec_registered(r, "map.new"@, "otter_builtin_map_new"@, Seq::<FfiType>::empty(), FfiType::Opaque)
    &&& spec_registered(r, "list.get"@, "otter_builtin_list_get"@, seq![FfiType::Opaque, FfiType::I64], FfiType::Str)
    &&& spec_registered(r, "map.get"@, "otter_builtin_map_get"@, seq![FfiType::Opaque, FfiType::Str], FfiType::Str)
    &&& spec_registered(r, "map.set"@, "otter_builtin_map_set"@, seq![FfiType::Opaque, FfiType::Str, FfiType::Str], FfiType::I32)
    &&& spec_registered(r, "panic"@, "otter_builtin_panic"@, seq![FfiType::Str], FfiType::Unit)
    &&& spec_registered(r, "recover"@, "otter_builtin_recover"@, Seq::<FfiType>::empty(), FfiType::Str)
    &&& spec_registered(r, "try"@, "otter_builtin_try"@, seq![FfiType::Opaque], FfiType::Opaque)
    &&& spec_registered(r, "try.result"@, "otter_builtin_try_result"@, seq![FfiType::Opaque], FfiType::Str)
    &&& spec_registered(r, "try.error"@, "otter_builtin_try_error"@, seq![FfiType::Opaque], FfiType::Opaque)
    &&& spec_registered(r, "error.message"@, "otter_builtin_error_message"@, seq![FfiType::Opaque], FfiType::Str)
    &&& spec_registered(r, "defer"@, "otter_builtin_defer"@, seq![FfiType::Opaque], FfiType::Unit)
    &&& spec_registered(r, "type_of<string>"@, "otter_builtin_type_of_string"@, seq![FfiType::Str], FfiType::Str)
    &&& spec_registered(r, "type_of<int>"@, "otter_builtin_type_of_int"@, seq![FfiType::I64], FfiType::Str)
    &&& spec_registered(r, "type_of<float>"@, "otter_builtin_type_of_float"@, seq![FfiType::F64], FfiType::Str)
    &&& spec_registered(r, "type_of<bool>"@, "otter_builtin_type_of_bool"@, seq![FfiType::Bool], FfiType::Str)
    &&& spec_registered(r, "type_of<list>"@, "otter_builtin_type_of_list"@, seq![FfiType::Opaque], FfiType::Str)
    &&& spec_registered(r, "type_of<map>"@, "otter_builtin_type_of_map"@, seq![FfiType::Opaque], FfiType::Str)
    &&& spec_registered(r, "type_of<opaque>"@, "otter_builtin_type_of_opaque"@, seq![FfiType::Opaque], FfiType::Str)
    &&& spec_registered(r, "fields"@, "otter_builtin_fields"@, seq![FfiType::Opaque], FfiType::Str)
    &&& spec_registered(r, "stringify<int>"@, "otter_builtin_stringify_int"@, seq![FfiType::I64], FfiType::Str)
    &&& spec_registered(r, "stringify<float>"@, "otter_builtin_stringify_float"@, seq![FfiType::F64], FfiType::Str)
    &&& spec_registered(r, "stringify<bool>"@, "otter_builtin_stringify_bool"@, seq![FfiType::Bool], FfiType::Str)
    &&& spec_registered(r, "stringify<string>"@, "otter_builtin_stringify_string"@, seq![FfiType::Str], FfiType::Str)
    &&& spec_registered(r, "stringify<list>"@, "otter_builtin_stringify_list"@, seq![FfiType::Opaque], FfiType::Str)
    &&& spec_registered(r, "stringify<map>"@, "otter_builtin_stringify_map"@, seq![FfiType::Opaque], FfiType::Str)
}

/// Built-in collection, error-handling, reflection and stringify entry points.
#[verifier::rlimit(60)]
pub fn register_builtin_symbols(registry: &mut SymbolRegistry)
    requires
        old(registry).wf(),
    ensures
        final(registry).wf(),
        builtin_symbols_registered(*final(registry)),
        forall|n: Seq<char>|
            (n != "len"@ && n != "len<list>"@ && n != "len<map>"@ && n != "cap"@ && n != "cap<list>"@ && n != "append<list,string>"@ && n != "append<list,int>"@ && n != "append<list,float>"@ && n != "delete<map>"@ && n != "range<int>"@ && n != "range<float>"@ && n != "enumerate<list>"@ && n != "list.new"@ && n != "map.new"@ && n != "list.get"@ && n != "map.get"@ && n != "map.set"@ && n != "panic"@ && n != "recover"@ && n != "try"@ && n != "try.result"@ && n != "try.error"@ && n != "error.message"@ && n != "defer"@ && n != "type_of<string>"@ && n != "type_of<int>"@ && n != "type_of<float>"@ && n != "type_of<bool>"@ && n != "type_of<list>"@ && n != "type_of<map>"@ && n != "type_of<opaque>"@ && n != "fields"@ && n != "stringify<int>"@ && n != "stringify<float>"@ && n != "stringify<bool>"@ && n != "stringify<string>"@ && n != "stringify<list>"@ && n != "stringify<map>"@)
                ==> final(registry).spec_resolve(n) == old(registry).spec_resolve(n),
{
    proof {
        reveal_strlit("len");
        reveal_strlit("len<list>");
        reveal_strlit("len<map>");
        reveal_strlit("cap");
        reveal_strlit("cap<list>");
        reveal_strlit("append<list,string>");
        reveal_strlit("append<list,int>");
        reveal_strlit("append<list,float>");
        reveal_strlit("delete<map>");
        reveal_strlit("range<int>");
        reveal_strlit("range<float>");
        reveal_strlit("enumerate<list>");
        reveal_strlit("list.new");
        reveal_strlit("map.new");
        reveal_strlit("list.get");
        reveal_strlit("map.get");
        reveal_strlit("map.set");
        reveal_strlit("panic");
        reveal_strlit("recover");
        reveal_strlit("try");
        reveal_strlit("try.result");
        reveal_strlit("try.error");
        reveal_strlit("error.message");
        reveal_strlit("defer");
        reveal_strlit("type_of<string>");
        reveal_strlit("type_of<int>");
        reveal_strlit("type_of<float>");
        reveal_strlit("type_of<bool>");
        reveal_strlit("type_of<list>");
        reveal_strlit("type_of<map>");
        reveal_strlit("type_of<opaque>");
        reveal_strlit("fields");
        reveal_strlit("stringify<int>");
        reveal_strlit("stringify<float>");
        reveal_strlit("stringify<bool>");
        reveal_strlit("stringify<string>");
        reveal_strlit("stringify<list>");
        reveal_strlit("stringify<map>");
        assert("len"@.len() == 3);
        assert("len<list>"@.len() == 9);
        assert("len<map>"@.len() == 8);
        assert("cap"@.len() == 3);
        assert("cap<list>"@.len() == 9);
        assert("append<list,string>"@.len() == 19);
        assert("append<list,int>"@.len() == 16);
        assert("append<list,float>"@.len() == 18);
        assert("delete<map>"@.len() == 11);
        assert("range<int>"@.len() == 10);
        assert("range<float>"@.len() == 12);
        assert("enumerate<list>"@.len() == 15);
        assert("list.new"@.len() == 8);
        assert("map.new"@.len() == 7);
        assert("list.get"@.len() == 8);
        assert("map.get"@.len() == 7);
        assert("map.set"@.len() == 7);
        assert("panic"@.len() == 5);
        assert("recover"@.len() == 7);
        assert("try"@.len() == 3);
        assert("try.result"@.len() == 10);
        assert("try.error"@.len() == 9);
        assert("error.message"@.len() == 13);
        assert("defer"@.len() == 5);
        assert("type_of<string>"@.len() == 15);
        assert("type_of<int>"@.len() == 12);
        assert("type_of<float>"@.len() == 14);
        assert("type_of<bool>"@.len() == 13);
        assert("type_of<list>"@.len() == 13);
        assert("type_of<map>"@.len() == 12);
        assert("type_of<opaque>"@.len() == 15);
        assert("fields"@.len() == 6);
        assert("stringify<int>"@.len() == 14);
        assert("stringify<float>"@.len() == 16);
        assert("stringify<bool>"@.len() == 15);
        assert("stringify<string>"@.len() == 17);
        assert("stringify<list>"@.len() == 15);
        assert("stringify<map>"@.len() == 14);
        assert("len"@[0] == 'l');
        assert("cap"@[0] == 'c');
        assert("try"@[0] == 't');
        assert("panic"@[0] == 'p');
        assert("defer"@[0] == 'd');
        assert("map.new"@[0] == 'm');
        assert("map.new"@[4] == 'n');
        assert("map.get"@[0] == 'm');
        assert("map.get"@[4] == 'g');
        assert("map.set"@[0] == 'm');
        assert("map.set"@[4] == 's');
        assert("recover"@[0] == 'r');
        assert("recover"@[4] == 'v');
        assert("len<map>"@[1] == 'e');
        assert("len<map>"@[5] == 'a');
        assert("list.new"@[1] == 'i');
        assert("list.new"@[5] == 'n');
        assert("list.get"@[1] == 'i');
        assert("list.get"@[5] == 'g');
        assert("len<list>"@[0] == 'l');
        assert("cap<list>"@[0] == 'c');
        assert("try.error"@[0] == 't');
        assert("range<int>"@[0] == 'r');
        assert("try.result"@[0] == 't');
        assert("range<float>"@[0] == 'r');
        assert("range<float>"@[8] == 'o');
        assert("type_of<int>"@[0] == 't');
        assert("type_of<int>"@[8] == 'i');
        assert("type_of<map>"@[0] == 't');
        assert("type_of<map>"@[8] == 'm');
        assert("error.message"@[0] == 'e');
        assert("error.message"@[8] == 's');
        assert("type_of<bool>"@[0] == 't');
        assert("type_of<bool>"@[8] == 'b');
        assert("type_of<list>"@[0] == 't');
        assert("type_of<list>"@[8] == 'l');
        assert("type_of<float>"@[0] == 't');
        assert("type_of<float>"@[10] == 'o');
        assert("stringify<int>"@[0] == 's');
        assert("stringify<int>"@[10] == 'i');
        assert("stringify<map>"@[0] == 's');
        assert("stringify<map>"@[10] == 'm');
        assert("enumerate<list>"@[0] == 'e');
        assert("enumerate<list>"@[8] == 'e');
        assert("enumerate<list>"@[10] == 'l');
        assert("type_of<string>"@[0] == 't');
        assert("type_of<string>"@[8] == 's');
        assert("type_of<string>"@[10] == 'r');
        assert("type_of<opaque>"@[0] == 't');
        assert("type_of<opaque>"@[8] == 'o');
        assert("type_of<opaque>"@[10] == 'a');
        assert("stringify<bool>"@[0] == 's');
        assert("stringify<bool>"@[8] == 'y');
        assert("stringify<bool>"@[10] == 'b');
        assert("stringify<list>"@[0] == 's');
        assert("stringify<list>"@[8] == 'y');
        assert("stringify<list>"@[10] == 'l');
        assert("append<list,int>"@[0] == 'a');
        assert("stringify<float>"@[0] == 's');
    }
    reg(registry, "len", "otter_builtin_len_string", vec![FfiType::Str], FfiType::I64);
    reg(registry, "len<list>", "otter_builtin_len_list", vec![FfiType::Opaque], FfiType::I64);
    reg(registry, "len<map>", "otter_builtin_len_map", vec![FfiType::Opaque], FfiType::I64);
    reg(registry, "cap", "otter_builtin_cap_string", vec![FfiType::Str], FfiType::I64);
    reg(registry, "cap<list>", "otter_builtin_cap_list", vec![FfiType::Opaque], FfiType::I64);
    reg(registry, "append<list,string>", "otter_builtin_append_list_string", vec![FfiType::Opaque, FfiType::Str], FfiType::I32);
    reg(registry, "append<list,int>", "otter_builtin_append_list_int", vec![FfiType::Opaque, FfiType::I64], FfiType::I32);
    reg(registry, "append<list,float>", "otter_builtin_append_list_float", vec![FfiType::Opaque, FfiType::F64], FfiType::I32);
    reg(registry, "delete<map>", "otter_builtin_delete_map", vec![FfiType::Opaque, FfiType::Str], FfiType::I32);
    reg(registry, "range<int>", "otter_builtin_range_int", vec![FfiType::I64, FfiType::I64], FfiType::Opaque);
    reg(registry, "range<float>", "otter_builtin_range_float", vec![FfiType::F64, FfiType::F64], FfiType::Opaque);
    reg(registry, "enumerate<list>", "otter_builtin_enumerate_list", vec![FfiType::Opaque], FfiType::Opaque);
    reg(registry, "list.new", "otter_builtin_list_new", Vec::new(), FfiType::Opaque);
    reg(registry, "map.new", "otter_builtin_map_new", Vec::new(), FfiType::Opaque);
    reg(registry, "list.get", "otter_builtin_list_get", vec![FfiType::Opaque, FfiType::I64], FfiType::Str);
    reg(registry, "map.get", "otter_builtin_map_get", vec![FfiType::Opaque, FfiType::Str], FfiType::Str);
    reg(registry, "map.set", "otter_builtin_map_set", vec![FfiType::Opaque, FfiType::Str, FfiType::Str], FfiType::I32);
    reg(registry, "panic", "otter_builtin_panic", vec![FfiType::Str], FfiType::Unit);
    reg(registry, "recover", "otter_builtin_recover", Vec::new(), FfiType::Str);
    reg(registry, "try", "otter_builtin_try", vec![FfiType::Opaque], FfiType::Opaque);
    reg(registry, "try.result", "otter_builtin_try_result", vec![FfiType::Opaque], FfiType::Str);
    reg(registry, "try.error", "otter_builtin_try_error", vec![FfiType::Opaque], FfiType::Opaque);
    reg(registry, "error.message", "otter_builtin_error_message", vec![FfiType::Opaque], FfiType::Str);
    reg(registry, "defer", "otter_builtin_defer", vec![FfiType::Opaque], FfiType::Unit);
    reg(registry, "type_of<string>", "otter_builtin_type_of_string", vec![FfiType::Str], FfiType::Str);
    reg(registry, "type_of<int>", "otter_builtin_type_of_int", vec![FfiType::I64], FfiType::Str);
    reg(registry, "type_of<float>", "otter_builtin_type_of_float", vec![FfiType::F64], FfiType::Str);
    reg(registry, "type_of<bool>", "otter_builtin_type_of_bool", vec![FfiType::Bool], FfiType::Str);
    reg(registry, "type_of<list>", "otter_builtin_type_of_list", vec![FfiType::Opaque], FfiType::Str);
    reg(registry, "type_of<map>", "otter_builtin_type_of_map", vec![FfiType::Opaque], FfiType::Str);
    reg(registry, "type_of<opaque>", "otter_builtin_type_of_opaque", vec![FfiType::Opaque], FfiType::Str);
    reg(registry, "fields", "otter_builtin_fields", vec![FfiType::Opaque], FfiType::Str);
    reg(registry, "stringify<int>", "otter_builtin_stringify_int", vec![FfiType::I64], FfiType::Str);
    reg(registry, "stringify<float>", "otter_builtin_stringify_float", vec![FfiType::F64], FfiType::Str);
    reg(registry, "stringify<bool>", "otter_builtin_stringify_bool", vec![FfiType::Bool], FfiType::Str);
    reg(registry, "stringify<string>", "otter_builtin_stringify_string", vec![FfiType::Str], FfiType::Str);
    reg(registry, "stringify<list>", "otter_builtin_stringify_list", vec![FfiType::Opaque], FfiType::Str);
    reg(registry, "stringify<map>", "otter_builtin_stringify_map", vec![FfiType::Opaque], FfiType::Str);
}

/// The table that `register_std_io_symbols` establishes.
pub open spec fn std_io_symbols_registered(r: SymbolRegistry) -> bool {
    &&& spec_registered(r, "std.io.print"@, "otter_std_io_print"@, seq![FfiType::Str], FfiType::Unit)
    &&& spec_registered(r, "std.io.println"@, "otter_std_io_println"@, seq![FfiType::Str], FfiType::Unit)
    &&& spec_registered(r, "std.io.read_line"@, "otter_std_io_read_line"@, Seq::<FfiType>::empty(), FfiType::Str)
    &&& spec_registered(r, "std.io.free"@, "otter_std_io_free_string"@, seq![FfiType::Str], FfiType::Unit)
}

/// Console input/output entry points.
pub fn register_std_io_symbols(registry: &mut SymbolRegistry)
    requires
        old(registry).wf(),
    ensures
        final(registry).wf(),
        std_io_symbols_registered(*final(registry)),
        forall|n: Seq<char>|
            (n != "std.io.print"@ && n != "std.io.println"@ && n != "std.io.read_line"@ && n != "std.io.free"@)
                ==> final(registry).spec_resolve(n) == old(registry).spec_resolve(n),
{
    proof {
        reveal_strlit("std.io.print");
        reveal_strlit("std.io.println");
        reveal_strlit("std.io.read_line");
        reveal_strlit("std.io.free");
        assert("std.io.print"@.len() == 12);
        assert("std.io.println"@.len() == 14);
        assert("std.io.read_line"@.len() == 16);
        assert("std.io.free"@.len() == 11);
    }
    reg(registry, "std.io.print", "otter_std_io_print", vec![FfiType::Str], FfiType::Unit);
    reg(registry, "std.io.println", "otter_std_io_println", vec![FfiType::Str], FfiType::Unit);
    reg(registry, "std.io.read_line", "otter_std_io_read_line", Vec::new(), FfiType::Str);
    reg(registry, "std.io.free", "otter_std_io_free_string", vec![FfiType::Str], FfiType::Unit);
}

/// The table that `register_std_json_symbols` establishes.
pub open spec fn std_json_symbols_registered(r: SymbolRegistry) -> bool {
    &&& spec_registered(r, "json.encode"@, "otter_std_json_encode"@, seq![FfiType::Str], FfiType::Str)
    &&& spec_registered(r, "json.decode"@, "otter_std_json_decode"@, seq![FfiType::Str], FfiType::Str)
    &&& spec_registered(r, "json.pretty"@, "otter_std_json_pretty"@, seq![FfiType::Str], FfiType::Str)
    &&& spec_registered(r, "json.validate"@, "otter_std_json_validate"@, seq![FfiType::Str], FfiType::Bool)
}

/// JSON encode/decode/pretty/validate entry points.
pub fn register_std_json_symbols(registry: &mut SymbolRegistry)
    requires
        old(registry).wf(),
    ensures
        final(registry).wf(),
        std_json_symbols_registered(*final(registry)),
        forall|n: Seq<char>|
            (n != "json.encode"@ && n != "json.decode"@ && n != "json.pretty"@ && n != "json.validate"@)
                ==> final(registry).spec_resolve(n) == old(registry).spec_resolve(n),
{
    proof {
        reveal_strlit("json.encode");
        reveal_strlit("json.decode");
        reveal_strlit("json.pretty");
        reveal_strlit("json.validate");
        assert("json.encode"@.len() == 11);
        assert("json.decode"@.len() == 11);
        assert("json.pretty"@.len() == 11);
        assert("json.validate"@.len() == 13);
        assert("json.encode"@[5] == 'e');
        assert("json.decode"@[5] == 'd');
        assert("json.pretty"@[5] == 'p');
    }
    reg(registry, "json.encode", "otter_std_json_encode", vec![FfiType::Str], FfiType::Str);
    reg(registry, "json.decode", "otter_std_json_decode", vec![FfiType::Str], FfiType::Str);
    reg(registry, "json.pretty", "otter_std_json_pretty", vec![FfiType::Str], FfiType::Str);
    reg(registry, "json.validate", "otter_std_json_validate", vec![FfiType::Str], FfiType::Bool);
}

/// The table that `register_std_math_symbols` establishes.
pub open spec fn std_math_symbols_registered(r: SymbolRegistry) -> bool {
    &&& spec_registered(r, "std.math.sqrt"@, "otter_std_math_sqrt"@, seq![FfiType::F64], FfiType::F64)
    &&& spec_registered(r, "std.math.pow"@, "otter_std_math_pow"@, seq![FfiType::F64, FfiType::F64], FfiType::F64)
    &&& spec_registered(r, "std.math.sin"@, "otter_std_math_sin"@, seq![FfiType::F64], FfiType::F64)
    &&& spec_registered(r, "std.math.cos"@, "otter_std_math_cos"@, seq![FfiType::F64], FfiType::F64)
}

/// Floating-point math entry points.
pub fn register_std_math_symbols(registry: &mut SymbolRegistry)
    requires
        old(registry).wf(),
    ensures
        final(registry).wf(),
        std_math_symbols_registered(*final(registry)),
        forall|n: Seq<char>|
            (n != "std.math.sqrt"@ && n != "std.math.pow"@ && n != "std.math.sin"@ && n != "std.math.cos"@)
                ==> final(registry).spec_resolve(n) == old(registry).spec_resolve(n),
{
    proof {
        reveal_strlit("std.math.sqrt");
        reveal_strlit("std.math.pow");
        reveal_strlit("std.math.sin");
        reveal_strlit("std.math.cos");
        assert("std.math.sqrt"@.len() == 13);
        assert("std.math.pow"@.len() == 12);
        assert("std.math.sin"@.len() == 12);
        assert("std.math.cos"@.len() == 12);
        assert("std.math.pow"@[9] == 'p');
        assert("std.math.sin"@[9] == 's');
        assert("std.math.cos"@[9] == 'c');
    }
    reg(registry, "std.math.sqrt", "otter_std_math_sqrt", vec![FfiType::F64], FfiType::F64);
    reg(registry, "std.math.pow", "otter_std_math_pow", vec![FfiType::F64, FfiType::F64], FfiType::F64);
    reg(registry, "std.math.sin", "otter_std_math_sin", vec![FfiType::F64], FfiType::F64);
    reg(registry, "std.math.cos", "otter_std_math_cos", vec![FfiType::F64], FfiType::F64);
}

/// The table that `register_std_net_symbols` establishes.
pub open spec fn std_net_symbols_registered(r: SymbolRegistry) -> bool {
    &&& spec_registered(r, "net.listen"@, "otter_std_net_listen"@, seq![FfiType::Str], FfiType::Opaque)
    &&& spec_registered(r, "net.dial"@, "otter_std_net_dial"@, seq![FfiType::Str], FfiType::Opaque)
    &&& spec_registered(r, "net.send"@, "otter_std_net_send"@, seq![FfiType::Opaque, FfiType::Str], FfiType::I32)
    &&& spec_registered(r, "net.recv"@, "otter_std_net_recv"@, seq![FfiType::Opaque], FfiType::Str)
    &&& spec_registered(r, "net.close"@, "otter_std_net_close"@, seq![FfiType::Opaque], FfiType::Unit)
    &&& spec_registered(r, "net.http_get"@, "otter_std_net_http_get"@, seq![FfiType::Str], FfiType::Opaque)
    &&& spec_registered(r, "net.http_post"@, "otter_std_net_http_post"@, seq![FfiType::Str, FfiType::Str], FfiType::Opaque)
    &&& spec_registered(r, "net.response.status"@, "otter_std_net_response_status"@, seq![FfiType::Opaque], FfiType::I32)
    &&& spec_registered(r, "net.response.body"@, "otter_std_net_response_body"@, seq![FfiType::Opaque], FfiType::Str)
}

/// Network and HTTP entry points.
pub fn register_std_net_symbols(registry: &mut SymbolRegistry)
    requires
        old(registry).wf(),
    ensures
        final(registry).wf(),
        std_net_symbols_registered(*final(registry)),
        forall|n: Seq<char>|
            (n != "net.listen"@ && n != "net.dial"@ && n != "net.send"@ && n != "net.recv"@ && n != "net.close"@ && n != "net.http_get"@ && n != "net.http_post"@ && n != "net.response.status"@ && n != "net.response.body"@)
                ==> final(registry).spec_resolve(n) == old(registry).spec_resolve(n),
{
    proof {
        reveal_strlit("net.listen");
        reveal_strlit("net.dial");
        reveal_strlit("net.send");
        reveal_strlit("net.recv");
        reveal_strlit("net.close");
        reveal_strlit("net.http_get");
        reveal_strlit("net.http_post");
        reveal_strlit("net.response.status");
        reveal_strlit("net.response.body");
        assert("net.listen"@.len() == 10);
        assert("net.dial"@.len() == 8);
        assert("net.send"@.len() == 8);
        assert("net.recv"@.len() == 8);
        assert("net.close"@.len() == 9);
        assert("net.http_get"@.len() == 12);
        assert("net.http_post"@.len() == 13);
        assert("net.response.status"@.len() == 19);
        assert("net.response.body"@.len() == 17);
        assert("net.dial"@[4] == 'd');
        assert("net.send"@[4] == 's');
        assert("net.recv"@[4] == 'r');
    }
    reg(registry, "net.listen", "otter_std_net_listen", vec![FfiType::Str], FfiType::Opaque);
    reg(registry, "net.dial", "otter_std_net_dial", vec![FfiType::Str], FfiType::Opaque);
    reg(registry, "net.send", "otter_std_net_send", vec![FfiType::Opaque, FfiType::Str], FfiType::I32);
    reg(registry, "net.recv", "otter_std_net_recv", vec![FfiType::Opaque], FfiType::Str);
    reg(registry, "net.close", "otter_std_net_close", vec![FfiType::Opaque], FfiType::Unit);
    reg(registry, "net.http_get", "otter_std_net_http_get", vec![FfiType::Str], FfiType::Opaque);
    reg(registry, "net.http_post", "otter_std_net_http_post", vec![FfiType::Str, FfiType::Str], FfiType::Opaque);
    reg(registry, "net.response.status", "otter_std_net_response_status", vec![FfiType::Opaque], FfiType::I32);
    reg(registry, "net.response.body", "otter_std_net_response_body", vec![FfiType::Opaque], FfiType::Str);
}

/// The table that `register_std_runtime_symbols` establishes.
pub open spec fn std_runtime_symbols_registered(r: SymbolRegistry) -> bool {
    &&& spec_registered(r, "runtime.gos"@, "otter_runtime_gos"@, Seq::<FfiType>::empty(), FfiType::I64)
    &&& spec_registered(r, "runtime.cpu_count"@, "otter_runtime_cpu_count"@, Seq::<FfiType>::empty(), FfiType::I64)
    &&& spec_registered(r, "runtime.memory"@, "otter_runtime_memory"@, Seq::<FfiType>::empty(), FfiType::I64)
    &&& spec_registered(r, "runtime.collect_garbage"@, "otter_runtime_collect_garbage"@, Seq::<FfiType>::empty(), FfiType::Unit)
    &&& spec_registered(r, "runtime.stats"@, "otter_runtime_stats"@, Seq::<FfiType>::empty(), FfiType::Str)
    &&& spec_registered(r, "runtime.version"@, "otter_runtime_version"@, Seq::<FfiType>::empty(), FfiType::Str)
    &&& spec_registered(r, "runtime.free"@, "otter_runtime_free_string"@, seq![FfiType::Str], FfiType::Unit)
}

/// Runtime statistics and version entry points.
pub fn register_std_runtime_symbols(registry: &mut SymbolRegistry)
    requires
        old(registry).wf(),
    ensures
        final(registry).wf(),
        std_runtime_symbols_registered(*final(registry)),
        forall|n: Seq<char>|
            (n != "runtime.gos"@ && n != "runtime.cpu_count"@ && n != "runtime.memory"@ && n != "runtime.collect_garbage"@ && n != "runtime.stats"@ && n != "runtime.version"@ && n != "runtime.free"@)
                ==> final(registry).spec_resolve(n) == old(registry).spec_resolve(n),
{
    proof {
        reveal_strlit("runtime.gos");
        reveal_strlit("runtime.cpu_count");
        reveal_strlit("runtime.memory");
        reveal_strlit("runtime.collect_garbage");
        reveal_strlit("runtime.stats");
        reveal_strlit("runtime.version");
        reveal_strlit("runtime.free");
        assert("runtime.gos"@.len() == 11);
        assert("runtime.cpu_count"@.len() == 17);
        assert("runtime.memory"@.len() == 14);
        assert("runtime.collect_garbage"@.len() == 23);
        assert("runtime.stats"@.len() == 13);
        assert("runtime.version"@.len() == 15);
        assert("runtime.free"@.len() == 12);
    }
    reg(registry, "runtime.gos", "otter_runtime_gos", Vec::new(), FfiType::I64);
    reg(registry, "runtime.cpu_count", "otter_runtime_cpu_count", Vec::new(), FfiType::I64);
    reg(registry, "runtime.memory", "otter_runtime_memory", Vec::new(), FfiType::I64);
    reg(registry, "runtime.collect_garbage", "otter_runtime_collect_garbage", Vec::new(), FfiType::Unit);
    reg(registry, "runtime.stats", "otter_runtime_stats", Vec::new(), FfiType::Str);
    reg(registry, "runtime.version", "otter_runtime_version", Vec::new(), FfiType::Str);
    reg(registry, "runtime.free", "otter_runtime_free_string", vec![FfiType::Str], FfiType::Unit);
}

/// The table that `register_std_sys_symbols` establishes.
pub open spec fn std_sys_symbols_registered(r: SymbolRegistry) -> bool {
    &&& spec_registered(r, "std.sys.cores"@, "otter_std_sys_cores"@, Seq::<FfiType>::empty(), FfiType::I64)
    &&& spec_registered(r, "std.sys.total_memory"@, "otter_std_sys_total_memory_bytes"@, Seq::<FfiType>::empty(), FfiType::I64)
    &&& spec_registered(r, "std.sys.available_memory"@, "otter_std_sys_available_memory_bytes"@, Seq::<FfiType>::empty(), FfiType::I64)
}

/// Host system information entry points.
pub fn register_std_sys_symbols(registry: &mut SymbolRegistry)
    requires
        old(registry).wf(),
    ensures
        final(registry).wf(),
        std_sys_symbols_registered(*final(registry)),
        forall|n: Seq<char>|
            (n != "std.sys.cores"@ && n != "std.sys.total_memory"@ && n != "std.sys.available_memory"@)
                ==> final(registry).spec_resolve(n) == old(registry).spec_resolve(n),
{
    proof {
        reveal_strlit("std.sys.cores");
        reveal_strlit("std.sys.total_memory");
        reveal_strlit("std.sys.available_memory");
        assert("std.sys.cores"@.len() == 13);
        assert("std.sys.total_memory"@.len() == 20);
        assert("std.sys.available_memory"@.len() == 24);
    }
    reg(registry, "std.sys.cores", "otter_std_sys_cores", Vec::new(), FfiType::I64);
    reg(registry, "std.sys.total_memory", "otter_std_sys_total_memory_bytes", Vec::new(), FfiType::I64);
    reg(registry, "std.sys.available_memory", "otter_std_sys_available_memory_bytes", Vec::new(), FfiType::I64);
}

/// The table that `register_std_task_symbols` establishes.
pub open spec fn std_task_symbols_registered(r: SymbolRegistry) -> bool {
    &&& spec_registered(r, "task.spawn"@, "otter_task_spawn"@, seq![FfiType::Opaque], FfiType::Opaque)
    &&& spec_registered(r, "task.join"@, "otter_task_join"@, seq![FfiType::Opaque], FfiType::Unit)
    &&& spec_registered(r, "task.detach"@, "otter_task_detach"@, seq![FfiType::Opaque], FfiType::Unit)
    &&& spec_registered(r, "task.sleep"@, "otter_task_sleep"@, seq![FfiType::I64], FfiType::Unit)
    &&& spec_registered(r, "task.channel<string>"@, "otter_task_channel_string"@, Seq::<FfiType>::empty(), FfiType::Opaque)
    &&& spec_registered(r, "task.channel<int>"@, "otter_task_channel_int"@, Seq::<FfiType>::empty(), FfiType::Opaque)
    &&& spec_registered(r, "task.channel<float>"@, "otter_task_channel_float"@, Seq::<FfiType>::empty(), FfiType::Opaque)
    &&& spec_registered(r, "task.send<string>"@, "otter_task_send_string"@, seq![FfiType::Opaque, FfiType::Str], FfiType::I32)
    &&& spec_registered(r, "task.send<int>"@, "otter_task_send_int"@, seq![FfiType::Opaque, FfiType::I64], FfiType::I32)
    &&& spec_registered(r, "task.send<float>"@, "otter_task_send_float"@, seq![FfiType::Opaque, FfiType::F64], FfiType::I32)
    &&& spec_registered(r, "task.recv<string>"@, "otter_task_recv_string"@, seq![FfiType::Opaque], FfiType::Str)
    &&& spec_registered(r, "task.recv<int>"@, "otter_task_recv_int"@, seq![FfiType::Opaque], FfiType::I64)
    &&& spec_registered(r, "task.recv<float>"@, "otter_task_recv_float"@, seq![FfiType::Opaque], FfiType::F64)
    &&& spec_registered(r, "task.close"@, "otter_task_close_channel"@, seq![FfiType::Opaque], FfiType::Unit)
    &&& spec_registered(r, "task.channel_int"@, "otter_task_channel_int"@, Seq::<FfiType>::empty(), FfiType::Opaque)
    &&& spec_registered(r, "task.channel_float"@, "otter_task_channel_float"@, Seq::<FfiType>::empty(), FfiType::Opaque)
    &&& spec_registered(r, "task.channel_string"@, "otter_task_channel_string"@, Seq::<FfiType>::empty(), FfiType::Opaque)
    &&& spec_registered(r, "task.send_int"@, "otter_task_send_int"@, seq![FfiType::Opaque, FfiType::I64], FfiType::I32)
    &&& spec_registered(r, "task.send_float"@, "otter_task_send_float"@, seq![FfiType::Opaque, FfiType::F64], FfiType::I32)
    &&& spec_registered(r, "task.send_string"@, "otter_task_send_string"@, seq![FfiType::Opaque, FfiType::Str], FfiType::I32)
    &&& spec_registered(r, "task.recv_int"@, "otter_task_recv_int"@, seq![FfiType::Opaque], FfiType::I64)
    &&& spec_registered(r, "task.recv_float"@, "otter_task_recv_float"@, seq![FfiType::Opaque], FfiType::F64)
    &&& spec_registered(r, "task.recv_string"@, "otter_task_recv_string"@, seq![FfiType::Opaque], FfiType::Str)
}

/// Task scheduler and typed channel entry points.
#[verifier::rlimit(60)]
pub fn register_std_task_symbols(registry: &mut SymbolRegistry)
    requires
        old(registry).wf(),
    ensures
        final(registry).wf(),
        std_task_symbols_registered(*final(registry)),
        forall|n: Seq<char>|
            (n != "task.spawn"@ && n != "task.join"@ && n != "task.detach"@ && n != "task.sleep"@ && n != "task.channel<string>"@ && n != "task.channel<int>"@ && n != "task.channel<float>"@ && n != "task.send<string>"@ && n != "task.send<int>"@ && n != "task.send<float>"@ && n != "task.recv<string>"@ && n != "task.recv<int>"@ && n != "task.recv<float>"@ && n != "task.close"@ && n != "task.channel_int"@ && n != "task.channel_float"@ && n != "task.channel_string"@ && n != "task.send_int"@ && n != "task.send_float"@ && n != "task.send_string"@ && n != "task.recv_int"@ && n != "task.recv_float"@ && n != "task.recv_string"@)
                ==> final(registry).spec_resolve(n) == old(registry).spec_resolve(n),
{
    proof {
        reveal_strlit("task.spawn");
        reveal_strlit("task.join");
        reveal_strlit("task.detach");
        reveal_strlit("task.sleep");
        reveal_strlit("task.channel<string>");
        reveal_strlit("task.channel<int>");
        reveal_strlit("task.channel<float>");
        reveal_strlit("task.send<string>");
        reveal_strlit("task.send<int>");
        reveal_strlit("task.send<float>");
        reveal_strlit("task.recv<string>");
        reveal_strlit("task.recv<int>");
        reveal_strlit("task.recv<float>");
        reveal_strlit("task.close");
        reveal_strlit("task.channel_int");
        reveal_strlit("task.channel_float");
        reveal_strlit("task.channel_string");
        reveal_strlit("task.send_int");
        reveal_strlit("task.send_float");
        reveal_strlit("task.send_string");
        reveal_strlit("task.recv_int");
        reveal_strlit("task.recv_float");
        reveal_strlit("task.recv_string");
        assert("task.spawn"@.len() == 10);
        assert("task.join"@.len() == 9);
        assert("task.detach"@.len() == 11);
        assert("task.sleep"@.len() == 10);
        assert("task.channel<string>"@.len() == 20);
        assert("task.channel<int>"@.len() == 17);
        assert("task.channel<float>"@.len() == 19);
        assert("task.send<string>"@.len() == 17);
        assert("task.send<int>"@.len() == 14);
        assert("task.send<float>"@.len() == 16);
        assert("task.recv<string>"@.len() == 17);
        assert("task.recv<int>"@.len() == 14);
        assert("task.recv<float>"@.len() == 16);
        assert("task.close"@.len() == 10);
        assert("task.channel_int"@.len() == 16);
        assert("task.channel_float"@.len() == 18);
        assert("task.channel_string"@.len() == 19);
        assert("task.send_int"@.len() == 13);
        assert("task.send_float"@.len() == 15);
        assert("task.send_string"@.len() == 16);
        assert("task.recv_int"@.len() == 13);
        assert("task.recv_float"@.len() == 15);
        assert("task.recv_string"@.len() == 16);
        assert("task.spawn"@[5] == 's');
        assert("task.spawn"@[6] == 'p');
        assert("task.sleep"@[5] == 's');
        assert("task.sleep"@[6] == 'l');
        assert("task.close"@[5] == 'c');
        assert("task.close"@[6] == 'l');
        assert("task.send_int"@[5] == 's');
        assert("task.recv_int"@[5] == 'r');
        assert("task.send<int>"@[5] == 's');
        assert("task.recv<int>"@[5] == 'r');
        assert("task.send_float"@[5] == 's');
        assert("task.recv_float"@[5] == 'r');
        assert("task.send<float>"@[5] == 's');
        assert("task.send<float>"@[9] == '<');
        assert("task.recv<float>"@[5] == 'r');
        assert("task.recv<float>"@[9] == '<');
        assert("task.channel_int"@[5] == 'c');
        assert("task.channel_int"@[9] == 'n');
        assert("task.send_string"@[5] == 's');
        assert("task.send_string"@[9] == '_');
        assert("task.recv_string"@[5] == 'r');
        assert("task.recv_string"@[9] == '_');
        assert("task.channel<int>"@[5] == 'c');
        assert("task.send<string>"@[5] == 's');
        assert("task.recv<string>"@[5] == 'r');
        assert("task.channel<float>"@[12] == '<');
        assert("task.channel_string"@[12] == '_');
    }
    reg(registry, "task.spawn", "otter_task_spawn", vec![FfiType::Opaque], FfiType::Opaque);
    reg(registry, "task.join", "otter_task_join", vec![FfiType::Opaque], FfiType::Unit);
    reg(registry, "task.detach", "otter_task_detach", vec![FfiType::Opaque], FfiType::Unit);
    reg(registry, "task.sleep", "otter_task_sleep", vec![FfiType::I64], FfiType::Unit);
    reg(registry, "task.channel<string>", "otter_task_channel_string", Vec::new(), FfiType::Opaque);
    reg(registry, "task.channel<int>", "otter_task_channel_int", Vec::new(), FfiType::Opaque);
    reg(registry, "task.channel<float>", "otter_task_channel_float", Vec::new(), FfiType::Opaque);
    reg(registry, "task.send<string>", "otter_task_send_string", vec![FfiType::Opaque, FfiType::Str], FfiType::I32);
    reg(registry, "task.send<int>", "otter_task_send_int", vec![FfiType::Opaque, FfiType::I64], FfiType::I32);
    reg(registry, "task.send<float>", "otter_task_send_float", vec![FfiType::Opaque, FfiType::F64], FfiType::I32);
    reg(registry, "task.recv<string>", "otter_task_recv_string", vec![FfiType::Opaque], FfiType::Str);
    reg(registry, "task.recv<int>", "otter_task_recv_int", vec![FfiType::Opaque], FfiType::I64);
    reg(registry, "task.recv<float>", "otter_task_recv_float", vec![FfiType::Opaque], FfiType::F64);
    reg(registry, "task.close", "otter_task_close_channel", vec![FfiType::Opaque], FfiType::Unit);
    reg(registry, "task.channel_int", "otter_task_channel_int", Vec::new(), FfiType::Opaque);
    reg(registry, "task.channel_float", "otter_task_channel_float", Vec::new(), FfiType::Opaque);
    reg(registry, "task.channel_string", "otter_task_channel_string", Vec::new(), FfiType::Opaque);
    reg(registry, "task.send_int", "otter_task_send_int", vec![FfiType::Opaque, FfiType::I64], FfiType::I32);
    reg(registry, "task.send_float", "otter_task_send_float", vec![FfiType::Opaque, FfiType::F64], FfiType::I32);
    reg(registry, "task.send_string", "otter_task_send_string", vec![FfiType::Opaque, FfiType::Str], FfiType::I32);
    reg(registry, "task.recv_int", "otter_task_recv_int", vec![FfiType::Opaque], FfiType::I64);
    reg(registry, "task.recv_float", "otter_task_recv_float", vec![FfiType::Opaque], FfiType::F64);
    reg(registry, "task.recv_string", "otter_task_recv_string", vec![FfiType::Opaque], FfiType::Str);
}

/// The table that `register_std_time_symbols` establishes.
pub open spec fn std_time_symbols_registered(r: SymbolRegistry) -> bool {
    &&& spec_registered(r, "time.now"@, "otter_std_time_now"@, Seq::<FfiType>::empty(), FfiType::Opaque)
    &&& spec_registered(r, "std.time.now"@, "otter_std_time_now_ms"@, Seq::<FfiType>::empty(), FfiType::I64)
    &&& spec_registered(r, "time.sleep"@, "otter_std_time_sleep_ms"@, seq![FfiType::I64], FfiType::Unit)
    &&& spec_registered(r, "time.since"@, "otter_std_time_since"@, seq![FfiType::Opaque], FfiType::Opaque)
    &&& spec_registered(r, "time.format"@, "otter_std_time_format"@, seq![FfiType::Opaque, FfiType::Str], FfiType::Str)
    &&& spec_registered(r, "time.parse"@, "otter_std_time_parse"@, seq![FfiType::Str, FfiType::Str], FfiType::Opaque)
    &&& spec_registered(r, "time.tick"@, "otter_std_time_tick"@, seq![FfiType::I64], FfiType::Opaque)
    &&& spec_registered(r, "time.after"@, "otter_std_time_after"@, seq![FfiType::I64], FfiType::Opaque)
    &&& spec_registered(r, "time.epoch_ms"@, "otter_std_time_epoch_ms"@, seq![FfiType::Opaque], FfiType::I64)
    &&& spec_registered(r, "duration.ms"@, "otter_std_duration_ms"@, seq![FfiType::Opaque], FfiType::I64)
    &&& spec_registered(r, "time.now_ms"@, "otter_std_time_now_ms"@, Seq::<FfiType>::empty(), FfiType::I64)
    &&& spec_registered(r, "time.now_us"@, "otter_std_time_now_us"@, Seq::<FfiType>::empty(), FfiType::I64)
    &&& spec_registered(r, "time.now_ns"@, "otter_std_time_now_ns"@, Seq::<FfiType>::empty(), FfiType::I64)
    &&& spec_registered(r, "time.now_sec"@, "otter_std_time_now_sec"@, Seq::<FfiType>::empty(), FfiType::I64)
}

/// Wall-clock and duration entry points.
#[verifier::rlimit(60)]
pub fn register_std_time_symbols(registry: &mut SymbolRegistry)
    requires
        old(registry).wf(),
    ensures
        final(registry).wf(),
        std_time_symbols_registered(*final(registry)),
        forall|n: Seq<char>|
            (n != "time.now"@ && n != "std.time.now"@ && n != "time.sleep"@ && n != "time.since"@ && n != "time.format"@ && n != "time.parse"@ && n != "time.tick"@ && n != "time.after"@ && n != "time.epoch_ms"@ && n != "duration.ms"@ && n != "time.now_ms"@ && n != "time.now_us"@ && n != "time.now_ns"@ && n != "time.now_sec"@)
                ==> final(registry).spec_resolve(n) == old(registry).spec_resolve(n),
{
    proof {
        reveal_strlit("time.now");
        reveal_strlit("std.time.now");
        reveal_strlit("time.sleep");
        reveal_strlit("time.since");
        reveal_strlit("time.format");
        reveal_strlit("time.parse");
        reveal_strlit("time.tick");
        reveal_strlit("time.after");
        reveal_strlit("time.epoch_ms");
        reveal_strlit("duration.ms");
        reveal_strlit("time.now_ms");
        reveal_strlit("time.now_us");
        reveal_strlit("time.now_ns");
        reveal_strlit("time.now_sec");
        assert("time.now"@.len() == 8);
        assert("std.time.now"@.len() == 12);
        assert("time.sleep"@.len() == 10);
        assert("time.since"@.len() == 10);
        assert("time.format"@.len() == 11);
        assert("time.parse"@.len() == 10);
        assert("time.tick"@.len() == 9);
        assert("time.after"@.len() == 10);
        assert("time.epoch_ms"@.len() == 13);
        assert("duration.ms"@.len() == 11);
        assert("time.now_ms"@.len() == 11);
        assert("time.now_us"@.len() == 11);
        assert("time.now_ns"@.len() == 11);
        assert("time.now_sec"@.len() == 12);
        assert("time.sleep"@[5] == 's');
        assert("time.sleep"@[6] == 'l');
        assert("time.since"@[5] == 's');
        assert("time.since"@[6] == 'i');
        assert("time.parse"@[5] == 'p');
        assert("time.parse"@[6] == 'a');
        assert("time.after"@[5] == 'a');
        assert("time.after"@[6] == 'f');
        assert("time.format"@[0] == 't');
        assert("time.format"@[5] == 'f');
        assert("time.format"@[9] == 'a');
        assert("duration.ms"@[0] == 'd');
        assert("duration.ms"@[5] == 'i');
        assert("duration.ms"@[9] == 'm');
        assert("time.now_ms"@[0] == 't');
        assert("time.now_ms"@[5] == 'n');
        assert("time.now_ms"@[9] == 'm');
        assert("time.now_us"@[0] == 't');
        assert("time.now_us"@[5] == 'n');
        assert("time.now_us"@[9] == 'u');
        assert("time.now_ns"@[0] == 't');
        assert("time.now_ns"@[5] == 'n');
        assert("time.now_ns"@[9] == 'n');
        assert("std.time.now"@[0] == 's');
        assert("time.now_sec"@[0] == 't');
    }
    reg(registry, "time.now", "otter_std_time_now", Vec::new(), FfiType::Opaque);
    reg(registry, "std.time.now", "otter_std_time_now_ms", Vec::new(), FfiType::I64);
    reg(registry, "time.sleep", "otter_std_time_sleep_ms", vec![FfiType::I64], FfiType::Unit);
    reg(registry, "time.since", "otter_std_time_since", vec![FfiType::Opaque], FfiType::Opaque);
    reg(registry, "time.format", "otter_std_time_format", vec![FfiType::Opaque, FfiType::Str], FfiType::Str);
    reg(registry, "time.parse", "otter_std_time_parse", vec![FfiType::Str, FfiType::Str], FfiType::Opaque);
    reg(registry, "time.tick", "otter_std_time_tick", vec![FfiType::I64], FfiType::Opaque);
    reg(registry, "time.after", "otter_std_time_after", vec![FfiType::I64], FfiType::Opaque);
    reg(registry, "time.epoch_ms", "otter_std_time_epoch_ms", vec![FfiType::Opaque], FfiType::I64);
    reg(registry, "duration.ms", "otter_std_duration_ms", vec![FfiType::Opaque], FfiType::I64);
    reg(registry, "time.now_ms", "otter_std_time_now_ms", Vec::new(), FfiType::I64);
    reg(registry, "time.now_us", "otter_std_time_now_us", Vec::new(), FfiType::I64);
    reg(registry, "time.now_ns", "otter_std_time_now_ns", Vec::new(), FfiType::I64);
    reg(registry, "time.now_sec", "otter_std_time_now_sec", Vec::new(), FfiType::I64);
}

/// Populates a registry with every standard-library provider's entries, in
/// one pass. Running it again re-registers identical entries: a no-op beyond
/// the upserts.
#[verifier::rlimit(100)]
pub fn bootstrap_stdlib(registry: &mut SymbolRegistry)
    requires
        old(registry).wf(),
    ensures
        final(registry).wf(),
        builtin_symbols_registered(*final(registry)),
        std_io_symbols_registered(*final(registry)),
        std_json_symbols_registered(*final(registry)),
        std_math_symbols_registered(*final(registry)),
        std_net_symbols_registered(*final(registry)),
        std_runtime_symbols_registered(*final(registry)),
        std_sys_symbols_registered(*final(registry)),
        std_task_symbols_registered(*final(registry)),
        std_time_symbols_registered(*final(registry)),
{
    proof {
        reveal_strlit("len");
        reveal_strlit("len<list>");
        reveal_strlit("len<map>");
        reveal_strlit("cap");
        reveal_strlit("cap<list>");
        reveal_strlit("append<list,string>");
        reveal_strlit("append<list,int>");
        reveal_strlit("append<list,float>");
        reveal_strlit("delete<map>");
        reveal_strlit("range<int>");
        reveal_strlit("range<float>");
        reveal_strlit("enumerate<list>");
        reveal_strlit("list.new");
        reveal_strlit("map.new");
        reveal_strlit("list.get");
        reveal_strlit("map.get");
        reveal_strlit("map.set");
        reveal_strlit("panic");
        reveal_strlit("recover");
        reveal_strlit("try");
        reveal_strlit("try.result");
        reveal_strlit("try.error");
        reveal_strlit("error.message");
        reveal_strlit("defer");
        reveal_strlit("type_of<string>");
        reveal_strlit("type_of<int>");
        reveal_strlit("type_of<float>");
        reveal_strlit("type_of<bool>");
        reveal_strlit("type_of<list>");
        reveal_strlit("type_of<map>");
        reveal_strlit("type_of<opaque>");
        reveal_strlit("fields");
        reveal_strlit("stringify<int>");
        reveal_strlit("stringify<float>");
        reveal_strlit("stringify<bool>");
        reveal_strlit("stringify<string>");
        reveal_strlit("stringify<list>");
        reveal_strlit("stringify<map>");
        reveal_strlit("std.io.print");
        reveal_strlit("std.io.println");
        reveal_strlit("std.io.read_line");
        reveal_strlit("std.io.free");
        reveal_strlit("json.encode");
        reveal_strlit("json.decode");
        reveal_strlit("json.pretty");
        reveal_strlit("json.validate");
        reveal_strlit("std.math.sqrt");
        reveal_strlit("std.math.pow");
        reveal_strlit("std.math.sin");
        reveal_strlit("std.math.cos");
        reveal_strlit("net.listen");
        reveal_strlit("net.dial");
        reveal_strlit("net.send");
        reveal_strlit("net.recv");
        reveal_strlit("net.close");
        reveal_strlit("net.http_get");
        reveal_strlit("net.http_post");
        reveal_strlit("net.response.status");
        reveal_strlit("net.response.body");
        reveal_strlit("runtime.gos");
        reveal_strlit("runtime.cpu_count");
        reveal_strlit("runtime.memory");
        reveal_strlit("runtime.collect_garbage");
        reveal_strlit("runtime.stats");
        reveal_strlit("runtime.version");
        reveal_strlit("runtime.free");
        reveal_strlit("std.sys.cores");
        reveal_strlit("std.sys.total_memory");
        reveal_strlit("std.sys.available_memory");
        reveal_strlit("task.spawn");
        reveal_strlit("task.join");
        reveal_strlit("task.detach");
        reveal_strlit("task.sleep");
        reveal_strlit("task.channel<string>");
        reveal_strlit("task.channel<int>");
        reveal_strlit("task.channel<float>");
        reveal_strlit("task.send<string>");
        reveal_strlit("task.send<int>");
        reveal_strlit("task.send<float>");
        reveal_strlit("task.recv<string>");
        reveal_strlit("task.recv<int>");
        reveal_strlit("task.recv<float>");
        reveal_strlit("task.close");
        reveal_strlit("task.channel_int");
        reveal_strlit("task.channel_float");
        reveal_strlit("task.channel_string");
        reveal_strlit("task.send_int");
        reveal_strlit("task.send_float");
        reveal_strlit("task.send_string");
        reveal_strlit("task.recv_int");
        reveal_strlit("task.recv_float");
        reveal_strlit("task.recv_string");
        reveal_strlit("time.now");
        reveal_strlit("std.time.now");
        reveal_strlit("time.sleep");
        reveal_strlit("time.since");
        reveal_strlit("time.format");
        reveal_strlit("time.parse");
        reveal_strlit("time.tick");
        reveal_strlit("time.after");
        reveal_strlit("time.epoch_ms");
        reveal_strlit("duration.ms");
        reveal_strlit("time.now_ms");
        reveal_strlit("time.now_us");
        reveal_strlit("time.now_ns");
        reveal_strlit("time.now_sec");
        assert("len"@.len() == 3);
        assert("len<list>"@.len() == 9);
        assert("len<map>"@.len() == 8);
        assert("cap"@.len() == 3);
        assert("cap<list>"@.len() == 9);
        assert("append<list,string>"@.len() == 19);
        assert("append<list,int>"@.len() == 16);
        assert("append<list,float>"@.len() == 18);
        assert("delete<map>"@.len() == 11);
        assert("range<int>"@.len() == 10);
        assert("range<float>"@.len() == 12);
        assert("enumerate<list>"@.len() == 15);
        assert("list.new"@.len() == 8);
        assert("map.new"@.len() == 7);
        assert("list.get"@.len() == 8);
        assert("map.get"@.len() == 7);
        assert("map.set"@.len() == 7);
        assert("panic"@.len() == 5);
        assert("recover"@.len() == 7);
        assert("try"@.len() == 3);
        assert("try.result"@.len() == 10);
        assert("try.error"@.len() == 9);
        assert("error.message"@.len() == 13);
        assert("defer"@.len() == 5);
        assert("type_of<string>"@.len() == 15);
        assert("type_of<int>"@.len() == 12);
        assert("type_of<float>"@.len() == 14);
        assert("type_of<bool>"@.len() == 13);
        assert("type_of<list>"@.len() == 13);
        assert("type_of<map>"@.len() == 12);
        assert("type_of<opaque>"@.len() == 15);
        assert("fields"@.len() == 6);
        assert("stringify<int>"@.len() == 14);
        assert("stringify<float>"@.len() == 16);
        assert("stringify<bool>"@.len() == 15);
        assert("stringify<string>"@.len() == 17);
        assert("stringify<list>"@.len() == 15);
        assert("stringify<map>"@.len() == 14);
        assert("std.io.print"@.len() == 12);
        assert("std.io.println"@.len() == 14);
        assert("std.io.read_line"@.len() == 16);
        assert("std.io.free"@.len() == 11);
        assert("json.encode"@.len() == 11);
        assert("json.decode"@.len() == 11);
        assert("json.pretty"@.len() == 11);
        assert("json.validate"@.len() == 13);
        assert("std.math.sqrt"@.len() == 13);
        assert("std.math.pow"@.len() == 12);
        assert("std.math.sin"@.len() == 12);
        assert("std.math.cos"@.len() == 12);
        assert("net.listen"@.len() == 10);
        assert("net.dial"@.len() == 8);
        assert("net.send"@.len() == 8);
        assert("net.recv"@.len() == 8);
        assert("net.close"@.len() == 9);
        assert("net.http_get"@.len() == 12);
        assert("net.http_post"@.len() == 13);
        assert("net.response.status"@.len() == 19);
        assert("net.response.body"@.len() == 17);
        assert("runtime.gos"@.len() == 11);
        assert("runtime.cpu_count"@.len() == 17);
        assert("runtime.memory"@.len() == 14);
        assert("runtime.collect_garbage"@.len() == 23);
        assert("runtime.stats"@.len() == 13);
        assert("runtime.version"@.len() == 15);
        assert("runtime.free"@.len() == 12);
        assert("std.sys.cores"@.len() == 13);
        assert("std.sys.total_memory"@.len() == 20);
        assert("std.sys.available_memory"@.len() == 24);
        assert("task.spawn"@.len() == 10);
        assert("task.join"@.len() == 9);
        assert("task.detach"@.len() == 11);
        assert("task.sleep"@.len() == 10);
        assert("task.channel<string>"@.len() == 20);
        assert("task.channel<int>"@.len() == 17);
        assert("task.channel<float>"@.len() == 19);
        assert("task.send<string>"@.len() == 17);
        assert("task.send<int>"@.len() == 14);
        assert("task.send<float>"@.len() == 16);
        assert("task.recv<string>"@.len() == 17);
        assert("task.recv<int>"@.len() == 14);
        assert("task.recv<float>"@.len() == 16);
        assert("task.close"@.len() == 10);
        assert("task.channel_int"@.len() == 16);
        assert("task.channel_float"@.len() == 18);
        assert("task.channel_string"@.len() == 19);
        assert("task.send_int"@.len() == 13);
        assert("task.send_float"@.len() == 15);
        assert("task.send_string"@.len() == 16);
        assert("task.recv_int"@.len() == 13);
        assert("task.recv_float"@.len() == 15);
        assert("task.recv_string"@.len() == 16);
        assert("time.now"@.len() == 8);
        assert("std.time.now"@.len() == 12);
        assert("time.sleep"@.len() == 10);
        assert("time.since"@.len() == 10);
        assert("time.format"@.len() == 11);
        assert("time.parse"@.len() == 10);
        assert("time.tick"@.len() == 9);
        assert("time.after"@.len() == 10);
        assert("time.epoch_ms"@.len() == 13);
        assert("duration.ms"@.len() == 11);
        assert("time.now_ms"@.len() == 11);
        assert("time.now_us"@.len() == 11);
        assert("time.now_ns"@.len() == 11);
        assert("time.now_sec"@.len() == 12);
        assert("len"@[0] == 'l');
        assert("cap"@[0] == 'c');
        assert("try"@[0] == 't');
        assert("panic"@[0] == 'p');
        assert("defer"@[0] == 'd');
        assert("map.new"@[0] == 'm');
        assert("map.new"@[4] == 'n');
        assert("map.get"@[0] == 'm');
        assert("map.get"@[4] == 'g');
        assert("map.set"@[0] == 'm');
        assert("map.set"@[4] == 's');
        assert("recover"@[0] == 'r');
        assert("recover"@[4] == 'v');
        assert("len<map>"@[0] == 'l');
        assert("len<map>"@[1] == 'e');
        assert("len<map>"@[4] == 'm');
        assert("len<map>"@[5] == 'a');
        assert("list.new"@[0] == 'l');
        assert("list.new"@[1] == 'i');
        assert("list.new"@[4] == '.');
        assert("list.new"@[5] == 'n');
        assert("list.get"@[0] == 'l');
        assert("list.get"@[1] == 'i');
        assert("list.get"@[4] == '.');
        assert("list.get"@[5] == 'g');
        assert("net.dial"@[0] == 'n');
        assert("net.dial"@[1] == 'e');
        assert("net.dial"@[4] == 'd');
        assert("net.dial"@[5] == 'i');
        assert("net.send"@[0] == 'n');
        assert("net.send"@[1] == 'e');
        assert("net.send"@[4] == 's');
        assert("net.send"@[5] == 'e');
        assert("net.recv"@[0] == 'n');
        assert("net.recv"@[1] == 'e');
        assert("net.recv"@[4] == 'r');
        assert("net.recv"@[5] == 'e');
        assert("time.now"@[0] == 't');
        assert("time.now"@[1] == 'i');
        assert("time.now"@[4] == '.');
        assert("time.now"@[5] == 'n');
        assert("len<list>"@[0] == 'l');
        assert("len<list>"@[1] == 'e');
        assert("cap<list>"@[0] == 'c');
        assert("cap<list>"@[1] == 'a');
        assert("try.error"@[0] == 't');
        assert("try.error"@[1] == 'r');
        assert("net.close"@[0] == 'n');
        assert("net.close"@[1] == 'e');
        assert("task.join"@[0] == 't');
        assert("task.join"@[1] == 'a');
        assert("time.tick"@[0] == 't');
        assert("time.tick"@[1] == 'i');
        assert("range<int>"@[0] == 'r');
        assert("range<int>"@[1] == 'a');
        assert("range<int>"@[5] == '<');
        assert("range<int>"@[6] == 'i');
        assert("try.result"@[0] == 't');
        assert("try.result"@[1] == 'r');
        assert("try.result"@[5] == 'e');
        assert("try.result"@[6] == 's');
        assert("net.listen"@[0] == 'n');
        assert("net.listen"@[1] == 'e');
        assert("net.listen"@[5] == 'i');
        assert("net.listen"@[6] == 's');
        assert("task.spawn"@[0] == 't');
        assert("task.spawn"@[1] == 'a');
        assert("task.spawn"@[5] == 's');
        assert("task.spawn"@[6] == 'p');
        assert("task.sleep"@[0] == 't');
        assert("task.sleep"@[1] == 'a');
        assert("task.sleep"@[5] == 's');
        assert("task.sleep"@[6] == 'l');
        assert("task.close"@[0] == 't');
        assert("task.close"@[1] == 'a');
        assert("task.close"@[5] == 'c');
        assert("task.close"@[6] == 'l');
        assert("time.sleep"@[0] == 't');
        assert("time.sleep"@[1] == 'i');
        assert("time.sleep"@[5] == 's');
        assert("time.sleep"@[6] == 'l');
        assert("time.since"@[0] == 't');
        assert("time.since"@[1] == 'i');
        assert("time.since"@[5] == 's');
        assert("time.since"@[6] == 'i');
        assert("time.parse"@[0] == 't');
        assert("time.parse"@[1] == 'i');
        assert("time.parse"@[5] == 'p');
        assert("time.parse"@[6] == 'a');
        assert("time.after"@[0] == 't');
        assert("time.after"@[1] == 'i');
        assert("time.after"@[5] == 'a');
        assert("time.after"@[6] == 'f');
        assert("delete<map>"@[0] == 'd');
        assert("delete<map>"@[1] == 'e');
        assert("delete<map>"@[5] == 'e');
        assert("delete<map>"@[9] == 'p');
        assert("std.io.free"@[0] == 's');
        assert("std.io.free"@[1] == 't');
        assert("std.io.free"@[5] == 'o');
        assert("std.io.free"@[9] == 'e');
        assert("json.encode"@[0] == 'j');
        assert("json.encode"@[1] == 's');
        assert("json.encode"@[5] == 'e');
        assert("json.encode"@[9] == 'd');
        assert("json.decode"@[0] == 'j');
        assert("json.decode"@[1] == 's');
        assert("json.decode"@[5] == 'd');
        assert("json.decode"@[9] == 'd');
        assert("json.pretty"@[0] == 'j');
        assert("json.pretty"@[1] == 's');
        assert("json.pretty"@[5] == 'p');
        assert("json.pretty"@[9] == 't');
        assert("runtime.gos"@[0] == 'r');
        assert("runtime.gos"@[1] == 'u');
        assert("runtime.gos"@[5] == 'm');
        assert("runtime.gos"@[9] == 'o');
        assert("task.detach"@[0] == 't');
        assert("task.detach"@[1] == 'a');
        assert("task.detach"@[5] == 'd');
        assert("task.detach"@[9] == 'c');
        assert("time.format"@[0] == 't');
        assert("time.format"@[1] == 'i');
        assert("time.format"@[5] == 'f');
        assert("time.format"@[9] == 'a');
        assert("duration.ms"@[0] == 'd');
        assert("duration.ms"@[1] == 'u');
        assert("duration.ms"@[5] == 'i');
        assert("duration.ms"@[9] == 'm');
        assert("time.now_ms"@[0] == 't');
        assert("time.now_ms"@[1] == 'i');
        assert("time.now_ms"@[5] == 'n');
        assert("time.now_ms"@[9] == 'm');
        assert("time.now_us"@[0] == 't');
        assert("time.now_us"@[1] == 'i');
        assert("time.now_us"@[5] == 'n');
        assert("time.now_us"@[9] == 'u');
        assert("time.now_ns"@[0] == 't');
        assert("time.now_ns"@[1] == 'i');
        assert("time.now_ns"@[5] == 'n');
        assert("time.now_ns"@[9] == 'n');
        assert("range<float>"@[0] == 'r');
        assert("range<float>"@[1] == 'a');
        assert("range<float>"@[4] == 'e');
        assert("range<float>"@[8] == 'o');
        assert("range<float>"@[9] == 'a');
        assert("type_of<int>"@[0] == 't');
        assert("type_of<int>"@[1] == 'y');
        assert("type_of<int>"@[4] == '_');
        assert("type_of<int>"@[8] == 'i');
        assert("type_of<int>"@[9] == 'n');
        assert("type_of<map>"@[0] == 't');
        assert("type_of<map>"@[1] == 'y');
        assert("type_of<map>"@[4] == '_');
        assert("type_of<map>"@[8] == 'm');
        assert("type_of<map>"@[9] == 'a');
        assert("std.io.print"@[0] == 's');
        assert("std.io.print"@[1] == 't');
        assert("std.io.print"@[4] == 'i');
        assert("std.io.print"@[8] == 'r');
        assert("std.io.print"@[9] == 'i');
        assert("std.math.pow"@[0] == 's');
        assert("std.math.pow"@[1] == 't');
        assert("std.math.pow"@[4] == 'm');
        assert("std.math.pow"@[8] == '.');
        assert("std.math.pow"@[9] == 'p');
        assert("std.math.sin"@[0] == 's');
        assert("std.math.sin"@[1] == 't');
        assert("std.math.sin"@[4] == 'm');
        assert("std.math.sin"@[8] == '.');
        assert("std.math.sin"@[9] == 's');
        assert("std.math.cos"@[0] == 's');
        assert("std.math.cos"@[1] == 't');
        assert("std.math.cos"@[4] == 'm');
        assert("std.math.cos"@[8] == '.');
        assert("std.math.cos"@[9] == 'c');
        assert("net.http_get"@[0] == 'n');
        assert("net.http_get"@[1] == 'e');
        assert("net.http_get"@[4] == 'h');
        assert("net.http_get"@[8] == '_');
        assert("net.http_get"@[9] == 'g');
        assert("runtime.free"@[0] == 'r');
        assert("runtime.free"@[1] == 'u');
        assert("runtime.free"@[4] == 'i');
        assert("runtime.free"@[8] == 'f');
        assert("runtime.free"@[9] == 'r');
        assert("std.time.now"@[0] == 's');
        assert("std.time.now"@[1] == 't');
        assert("std.time.now"@[4] == 't');
        assert("std.time.now"@[8] == '.');
        assert("std.time.now"@[9] == 'n');
        assert("time.now_sec"@[0] == 't');
        assert("time.now_sec"@[1] == 'i');
        assert("time.now_sec"@[4] == '.');
        assert("time.now_sec"@[8] == '_');
        assert("time.now_sec"@[9] == 's');
        assert("error.message"@[0] == 'e');
        assert("error.message"@[1] == 'r');
        assert("error.message"@[4] == 'r');
        assert("error.message"@[5] == '.');
        assert("error.message"@[8] == 's');
        assert("type_of<bool>"@[0] == 't');
        assert("type_of<bool>"@[1] == 'y');
        assert("type_of<bool>"@[4] == '_');
        assert("type_of<bool>"@[5] == 'o');
        assert("type_of<bool>"@[8] == 'b');
        assert("type_of<list>"@[0] == 't');
        assert("type_of<list>"@[1] == 'y');
        assert("type_of<list>"@[4] == '_');
        assert("type_of<list>"@[5] == 'o');
        assert("type_of<list>"@[8] == 'l');
        assert("json.validate"@[0] == 'j');
        assert("json.validate"@[1] == 's');
        assert("json.validate"@[4] == '.');
        assert("json.validate"@[5] == 'v');
        assert("json.validate"@[8] == 'i');
        assert("std.math.sqrt"@[0] == 's');
        assert("std.math.sqrt"@[1] == 't');
        assert("std.math.sqrt"@[4] == 'm');
        assert("std.math.sqrt"@[5] == 'a');
        assert("std.math.sqrt"@[8] == '.');
        assert("net.http_post"@[0] == 'n');
        assert("net.http_post"@[1] == 'e');
        assert("net.http_post"@[4] == 'h');
        assert("net.http_post"@[5] == 't');
        assert("net.http_post"@[8] == '_');
        assert("runtime.stats"@[0] == 'r');
        assert("runtime.stats"@[1] == 'u');
        assert("runtime.stats"@[4] == 'i');
        assert("runtime.stats"@[5] == 'm');
        assert("runtime.stats"@[8] == 's');
        assert("std.sys.cores"@[0] == 's');
        assert("std.sys.cores"@[1] == 't');
        assert("std.sys.cores"@[4] == 's');
        assert("std.sys.cores"@[5] == 'y');
        assert("std.sys.cores"@[8] == 'c');
        assert("task.send_int"@[0] == 't');
        assert("task.send_int"@[1] == 'a');
        assert("task.send_int"@[4] == '.');
        assert("task.send_int"@[5] == 's');
        assert("task.send_int"@[8] == 'd');
        assert("task.recv_int"@[0] == 't');
        assert("task.recv_int"@[1] == 'a');
        assert("task.recv_int"@[4] == '.');
        assert("task.recv_int"@[5] == 'r');
        assert("task.recv_int"@[8] == 'v');
        assert("time.epoch_ms"@[0] == 't');
        assert("time.epoch_ms"@[1] == 'i');
        assert("time.epoch_ms"@[4] == '.');
        assert("time.epoch_ms"@[5] == 'e');
        assert("time.epoch_ms"@[8] == 'c');
        assert("type_of<float>"@[0] == 't');
        assert("type_of<float>"@[1] == 'y');
        assert("type_of<float>"@[2] == 'p');
        assert("type_of<float>"@[5] == 'o');
        assert("type_of<float>"@[10] == 'o');
        assert("stringify<int>"@[0] == 's');
        assert("stringify<int>"@[1] == 't');
        assert("stringify<int>"@[2] == 'r');
        assert("stringify<int>"@[5] == 'g');
        assert("stringify<int>"@[10] == 'i');
        assert("stringify<map>"@[0] == 's');
        assert("stringify<map>"@[1] == 't');
        assert("stringify<map>"@[2] == 'r');
        assert("stringify<map>"@[5] == 'g');
        assert("stringify<map>"@[10] == 'm');
        assert("std.io.println"@[0] == 's');
        assert("std.io.println"@[1] == 't');
        assert("std.io.println"@[2] == 'd');
        assert("std.io.println"@[5] == 'o');
        assert("std.io.println"@[10] == 'n');
        assert("runtime.memory"@[0] == 'r');
        assert("runtime.memory"@[1] == 'u');
        assert("runtime.memory"@[2] == 'n');
        assert("runtime.memory"@[5] == 'm');
        assert("runtime.memory"@[10] == 'm');
        assert("task.send<int>"@[0] == 't');
        assert("task.send<int>"@[1] == 'a');
        assert("task.send<int>"@[2] == 's');
        assert("task.send<int>"@[5] == 's');
        assert("task.send<int>"@[10] == 'i');
        assert("task.recv<int>"@[0] == 't');
        assert("task.recv<int>"@[1] == 'a');
        assert("task.recv<int>"@[2] == 's');
        assert("task.recv<int>"@[5] == 'r');
        assert("task.recv<int>"@[10] == 'i');
        assert("enumerate<list>"@[0] == 'e');
        assert("enumerate<list>"@[1] == 'n');
        assert("enumerate<list>"@[5] == 'r');
        assert("enumerate<list>"@[8] == 'e');
        assert("enumerate<list>"@[10] == 'l');
        assert("type_of<string>"@[0] == 't');
        assert("type_of<string>"@[1] == 'y');
        assert("type_of<string>"@[5] == 'o');
        assert("type_of<string>"@[8] == 's');
        assert("type_of<string>"@[10] == 'r');
        assert("type_of<opaque>"@[0] == 't');
        assert("type_of<opaque>"@[1] == 'y');
        assert("type_of<opaque>"@[5] == 'o');
        assert("type_of<opaque>"@[8] == 'o');
        assert("type_of<opaque>"@[10] == 'a');
        assert("stringify<bool>"@[0] == 's');
        assert("stringify<bool>"@[1] == 't');
        assert("stringify<bool>"@[5] == 'g');
        assert("stringify<bool>"@[8] == 'y');
        assert("stringify<bool>"@[10] == 'b');
        assert("stringify<list>"@[0] == 's');
        assert("stringify<list>"@[1] == 't');
        assert("stringify<list>"@[5] == 'g');
        assert("stringify<list>"@[8] == 'y');
        assert("stringify<list>"@[10] == 'l');
        assert("runtime.version"@[0] == 'r');
        assert("runtime.version"@[1] == 'u');
        assert("runtime.version"@[5] == 'm');
        assert("runtime.version"@[8] == 'v');
        assert("runtime.version"@[10] == 'r');
        assert("task.send_float"@[0] == 't');
        assert("task.send_float"@[1] == 'a');
        assert("task.send_float"@[5] == 's');
        assert("task.send_float"@[8] == 'd');
        assert("task.send_float"@[10] == 'f');
        assert("task.recv_float"@[0] == 't');
        assert("task.recv_float"@[1] == 'a');
        assert("task.recv_float"@[5] == 'r');
        assert("task.recv_float"@[8] == 'v');
        assert("task.recv_float"@[10] == 'f');
        assert("append<list,int>"@[0] == 'a');
        assert("append<list,int>"@[2] == 'p');
        assert("append<list,int>"@[5] == 'd');
        assert("append<list,int>"@[9] == 's');
        assert("stringify<float>"@[0] == 's');
        assert("stringify<float>"@[2] == 'r');
        assert("stringify<float>"@[5] == 'g');
        assert("stringify<float>"@[9] == '<');
        assert("std.io.read_line"@[0] == 's');
        assert("std.io.read_line"@[2] == 'd');
        assert("std.io.read_line"@[5] == 'o');
        assert("std.io.read_line"@[9] == 'a');
        assert("task.send<float>"@[0] == 't');
        assert("task.send<float>"@[2] == 's');
        assert("task.send<float>"@[5] == 's');
        assert("task.send<float>"@[9] == '<');
        assert("task.recv<float>"@[0] == 't');
        assert("task.recv<float>"@[2] == 's');
        assert("task.recv<float>"@[5] == 'r');
        assert("task.recv<float>"@[9] == '<');
        assert("task.channel_int"@[0] == 't');
        assert("task.channel_int"@[2] == 's');
        assert("task.channel_int"@[5] == 'c');
        assert("task.channel_int"@[9] == 'n');
        assert("task.send_string"@[0] == 't');
        assert("task.send_string"@[2] == 's');
        assert("task.send_string"@[5] == 's');
        assert("task.send_string"@[9] == '_');
        assert("task.recv_string"@[0] == 't');
        assert("task.recv_string"@[2] == 's');
        assert("task.recv_string"@[5] == 'r');
        assert("task.recv_string"@[9] == '_');
        assert("stringify<string>"@[0] == 's');
        assert("stringify<string>"@[5] == 'g');
        assert("net.response.body"@[0] == 'n');
        assert("net.response.body"@[5] == 'e');
        assert("runtime.cpu_count"@[0] == 'r');
        assert("runtime.cpu_count"@[5] == 'm');
        assert("task.channel<int>"@[0] == 't');
        assert("task.channel<int>"@[5] == 'c');
        assert("task.send<string>"@[0] == 't');
        assert("task.send<string>"@[5] == 's');
        assert("task.recv<string>"@[0] == 't');
        assert("task.recv<string>"@[5] == 'r');
        assert("append<list,float>"@[0] == 'a');
        assert("task.channel_float"@[0] == 't');
        assert("append<list,string>"@[0] == 'a');
        assert("append<list,string>"@[12] == 's');
        assert("net.response.status"@[0] == 'n');
        assert("net.response.status"@[12] == '.');
        assert("task.channel<float>"@[0] == 't');
        assert("task.channel<float>"@[12] == '<');
        assert("task.channel_string"@[0] == 't');
        assert("task.channel_string"@[12] == '_');
        assert("std.sys.total_memory"@[0] == 's');
        assert("task.channel<string>"@[0] == 't');
    }
    register_builtin_symbols(registry);
    assert(builtin_symbols_registered(*registry));
    register_std_io_symbols(registry);
    assert(builtin_symbols_registered(*registry));
    assert(std_io_symbols_registered(*registry));
    register_std_json_symbols(registry);
    assert(builtin_symbols_registered(*registry));
    assert(std_io_symbols_registered(*registry));
    assert(std_json_symbols_registered(*registry));
    register_std_math_symbols(registry);
    assert(builtin_symbols_registered(*registry));
    assert(std_io_symbols_registered(*registry));
    assert(std_json_symbols_registered(*registry));
    assert(std_math_symbols_registered(*registry));
    register_std_net_symbols(registry);
    assert(builtin_symbols_registered(*registry));
    assert(std_io_symbols_registered(*registry));
    assert(std_json_symbols_registered(*registry));
    assert(std_math_symbols_registered(*registry));
    assert(std_net_symbols_registered(*registry));
    register_std_runtime_symbols(registry);
    assert(builtin_symbols_registered(*registry));
    assert(std_io_symbols_registered(*registry));
    assert(std_json_symbols_registered(*registry));
    assert(std_math_symbols_registered(*registry));
    assert(std_net_symbols_registered(*registry));
    assert(std_runtime_symbols_registered(*registry));
    register_std_sys_symbols(registry);
    assert(builtin_symbols_registered(*registry));
    assert(std_io_symbols_registered(*registry));
    assert(std_json_symbols_registered(*registry));
    assert(std_math_symbols_registered(*registry));
    assert(std_net_symbols_registered(*registry));
    assert(std_runtime_symbols_registered(*registry));
    assert(std_sys_symbols_registered(*registry));
    register_std_task_symbols(registry);
    assert(builtin_symbols_registered(*registry));
    assert(std_io_symbols_registered(*registry));
    assert(std_json_symbols_registered(*registry));
    assert(std_math_symbols_registered(*registry));
    assert(std_net_symbols_registered(*registry));
    assert(std_runtime_symbols_registered(*registry));
    assert(std_sys_symbols_registered(*registry));
    assert(std_task_symbols_registered(*registry));
    register_std_time_symbols(registry);
    assert(builtin_symbols_registered(*registry));
    assert(std_io_symbols_registered(*registry));
    assert(std_json_symbols_registered(*registry));
    assert(std_math_symbols_registered(*registry));
    assert(std_net_symbols_registered(*registry));
    assert(std_runtime_symbols_registered(*registry));
    assert(std_sys_symbols_registered(*registry));
    assert(std_task_symbols_registered(*registry));
    assert(std_time_symbols_registered(*registry));
}

} // verus!