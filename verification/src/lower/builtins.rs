//! Builtin functions of the runtime: which return strings, and the MIR
//! return type of each.
use vstd::prelude::*;
use crate::mir::{MirType, TypeModel};
use crate::lower::types::{make_result_type, make_typeinfo_type, result_model, typeinfo_model};
use crate::text::str_eq;

verus! {

/// The builtins whose result is a string.
pub open spec fn string_builtin(name: Seq<char>) -> bool {
    name == "ky_strlen"@
    || name == "ky_i64_to_str"@
    || name == "ky_input"@
    || name == "ky_concat"@
    || name == "ky_str_to_upper"@
    || name == "ky_str_to_lower"@
    || name == "ky_str_trim"@
    || name == "ky_str_replace"@
    || name == "ky_read_str"@
    || name == "to_upper"@
    || name == "to_lower"@
    || name == "trim"@
    || name == "replace"@
    || name == "input"@
    || name == "input_with_prompt"@
    || name == "read_str"@
}

/// Check if a call name refers to a builtin that returns a string.
pub fn is_string_builtin_name(name: &str) -> (r: bool)
    ensures
        r == string_builtin(name@),
{
    str_eq(name, "ky_strlen")
    || str_eq(name, "ky_i64_to_str")
    || str_eq(name, "ky_input")
    || str_eq(name, "ky_concat")
    || str_eq(name, "ky_str_to_upper")
    || str_eq(name, "ky_str_to_lower")
    || str_eq(name, "ky_str_trim")
    || str_eq(name, "ky_str_replace")
    || str_eq(name, "ky_read_str")
    || str_eq(name, "to_upper")
    || str_eq(name, "to_lower")
    || str_eq(name, "trim")
    || str_eq(name, "replace")
    || str_eq(name, "input")
    || str_eq(name, "input_with_prompt")
    || str_eq(name, "read_str")
}

/// The MIR return type of a builtin function; `None` for `box`, whose
/// type follows its argument, and for a name that is not a builtin.
pub open spec fn builtin_return(name: Seq<char>) -> Option<TypeModel> {
    if name == "print"@ || name == "println"@ {
        Some(TypeModel::Void)
    } else if name == "contains"@ {
        Some(TypeModel::I32)
    } else if name == "to_upper"@ || name == "to_lower"@ || name == "upper"@ || name == "lower"@ || name == "trim"@ || name == "replace"@ || name == "input"@ || name == "input_with_prompt"@ {
        Some(TypeModel::Str)
    } else if name == "open"@ || name == "close"@ || name == "write_str"@ {
        Some(TypeModel::I32)
    } else if name == "read_str"@ {
        Some(TypeModel::Str)
    } else if name == "char_at"@ {
        Some(TypeModel::Char)
    } else if name == "ord"@ {
        Some(TypeModel::I32)
    } else if name == "is_digit"@ || name == "is_alpha"@ || name == "is_alnum"@ || name == "is_whitespace"@ || name == "is_upper"@ || name == "is_lower"@ {
        Some(TypeModel::I32)
    } else if name == "now"@ {
        Some(TypeModel::I64)
    } else if name == "sleep"@ || name == "list_push"@ || name == "list_set"@ || name == "assert"@ || name == "assert_eq"@ || name == "assert_ne"@ || name == "assert_str"@ {
        Some(TypeModel::Void)
    } else if name == "list_new"@ {
        Some(TypeModel::List(Box::new(TypeModel::I32)))
    } else if name == "list_get"@ {
        Some(TypeModel::I64)
    } else if name == "list_len"@ {
        Some(TypeModel::I64)
    } else if name == "substr"@ {
        Some(TypeModel::Str)
    } else if name == "eq_str"@ {
        Some(TypeModel::I32)
    } else if name == "json_parse"@ {
        Some(TypeModel::Dict(Box::new(TypeModel::Str), Box::new(TypeModel::I64)))
    } else if name == "json_stringify"@ || name == "json_stringify_str"@ {
        Some(TypeModel::Str)
    } else if name == "serialize"@ {
        Some(TypeModel::Str)
    } else if name == "ky_struct_to_json"@ {
        Some(TypeModel::Str)
    } else if name == "type"@ {
        Some(typeinfo_model())
    } else if name == "ceil"@ || name == "floor"@ || name == "round"@ {
        Some(TypeModel::F64)
    } else {
        builtin_return_more(name)
    }
}

/// `builtin_return` for the names after the math functions.
pub open spec fn builtin_return_more(name: Seq<char>) -> Option<TypeModel> {
    if name == "ky_getenv"@ || name == "ky_setenv"@ || name == "ky_base64_encode"@ || name == "ky_sha1"@ {
        Some(TypeModel::Str)
    } else if name == "ky_spawn_thread"@ || name == "ky_join_thread"@ || name == "ky_parallel_for"@ {
        Some(TypeModel::I64)
    } else if name == "ky_channel_new"@ {
        Some(TypeModel::I64)
    } else if name == "ky_channel_send"@ || name == "ky_channel_recv"@ || name == "ky_channel_len"@ || name == "ky_channel_free"@ {
        Some(TypeModel::I64)
    } else if name == "ky_channel_close"@ {
        Some(TypeModel::Void)
    } else if name == "ok"@ || name == "error"@ {
        Some(result_model())
    } else if name == "box"@ {
        None
    } else if name == "ky_list_remove_value"@ {
        Some(TypeModel::I32)
    } else if name == "ky_dict_contains"@ {
        Some(TypeModel::I32)
    } else if name == "ky_dict_remove"@ {
        Some(TypeModel::I64)
    } else if name == "ky_dict_keys"@ {
        Some(TypeModel::List(Box::new(TypeModel::I64)))
    } else if name == "ky_str_builder_new"@ || name == "str_builder_new"@ {
        Some(TypeModel::Str)
    } else if name == "str_builder_append"@ || name == "str_builder_free"@ {
        Some(TypeModel::Void)
    } else if name == "str_builder_to_str"@ {
        Some(TypeModel::Str)
    } else if name == "ky_str_builder_append"@ || name == "ky_str_builder_free"@ {
        Some(TypeModel::Void)
    } else if name == "ky_str_builder_to_str"@ {
        Some(TypeModel::Str)
    } else if name == "ky_fs_exists"@ || name == "ky_fs_is_dir"@ || name == "ky_fs_is_file"@ || name == "ky_fs_copy"@ || name == "ky_fs_remove"@ || name == "ky_fs_create_dir"@ || name == "ky_fs_remove_dir"@ || name == "ky_fs_rename"@ || name == "ky_fs_write_string"@ {
        Some(TypeModel::I32)
    } else if name == "ky_fs_size"@ || name == "ky_time_now_ms"@ || name == "ky_time_now_us"@ || name == "ky_fs_list_dir"@ || name == "ky_set_len"@ {
        Some(TypeModel::I64)
    } else {
        builtin_return_rest(name)
    }
}

/// `builtin_return` for the set, conversion, file and byte-buffer builtins.
pub open spec fn builtin_return_rest(name: Seq<char>) -> Option<TypeModel> {
    if name == "ky_set_new"@ {
        Some(TypeModel::SetOf(Box::new(TypeModel::I32)))
    } else if name == "ky_set_add"@ || name == "ky_set_free"@ {
        Some(TypeModel::Void)
    } else if name == "ky_set_contains"@ || name == "ky_set_remove"@ {
        Some(TypeModel::I32)
    } else if name == "ky_set_difference"@ || name == "ky_set_symmetric_difference"@ || name == "ky_set_union"@ || name == "ky_set_intersection"@ {
        Some(TypeModel::SetOf(Box::new(TypeModel::I64)))
    } else if name == "ky_set_is_subset"@ {
        Some(TypeModel::I32)
    } else if name == "ky_str_to_list"@ {
        Some(TypeModel::List(Box::new(TypeModel::Str)))
    } else if name == "ky_set_to_list"@ || name == "ky_queue_to_list"@ || name == "ky_stack_to_list"@ {
        Some(TypeModel::List(Box::new(TypeModel::I64)))
    } else if name == "ky_queue_to_stack"@ {
        Some(TypeModel::Stack(Box::new(TypeModel::I64)))
    } else if name == "ky_stack_to_queue"@ {
        Some(TypeModel::Queue(Box::new(TypeModel::I64)))
    } else if name == "ky_open"@ {
        Some(TypeModel::I32)
    } else if name == "ky_read_str"@ {
        Some(TypeModel::Str)
    } else if name == "ky_write_str"@ || name == "ky_close"@ {
        Some(TypeModel::I32)
    } else if name == "ky_fs_read_to_string"@ {
        Some(TypeModel::Str)
    } else if name == "ky_bytes_new"@ {
        Some(TypeModel::Bytes)
    } else if name == "ky_bytes_get"@ || name == "ky_bytes_set"@ {
        Some(TypeModel::I32)
    } else if name == "ky_bytes_to_hex"@ || name == "ky_bytes_to_base64"@ {
        Some(TypeModel::Str)
    } else if name == "ky_bytes_from_hex"@ {
        Some(TypeModel::Bytes)
    } else {
        None
    }
}

/// Return the MIR type for known builtin functions, or `None` for generic
/// functions and for `box`, which the caller handles itself.
#[verifier::rlimit(40)]
pub fn builtin_return_type(name: &str) -> (r: Option<MirType>)
    ensures
        r is Some == builtin_return(name@) is Some,
        r is Some ==> r->0@ == builtin_return(name@)->0,
{
    if str_eq(name, "print") || str_eq(name, "println") {
        return Some(MirType::Void);
    }
    if str_eq(name, "contains") {
        return Some(MirType::I32);
    }
    if str_eq(name, "to_upper") || str_eq(name, "to_lower") || str_eq(name, "upper") || str_eq(name, "lower") || str_eq(name, "trim") || str_eq(name, "replace") || str_eq(name, "input") || str_eq(name, "input_with_prompt") {
        return Some(MirType::Str);
    }
    if str_eq(name, "open") || str_eq(name, "close") || str_eq(name, "write_str") {
        return Some(MirType::I32);
    }
    if str_eq(name, "read_str") {
        return Some(MirType::Str);
    }
    if str_eq(name, "char_at") {
        return Some(MirType::Char);
    }
    if str_eq(name, "ord") {
        return Some(MirType::I32);
    }
    if str_eq(name, "is_digit") || str_eq(name, "is_alpha") || str_eq(name, "is_alnum") || str_eq(name, "is_whitespace") || str_eq(name, "is_upper") || str_eq(name, "is_lower") {
        return Some(MirType::I32);
    }
    if str_eq(name, "now") {
        return Some(MirType::I64);
    }
    if str_eq(name, "sleep") || str_eq(name, "list_push") || str_eq(name, "list_set") || str_eq(name, "assert") || str_eq(name, "assert_eq") || str_eq(name, "assert_ne") || str_eq(name, "assert_str") {
        return Some(MirType::Void);
    }
    if str_eq(name, "list_new") {
        let t = MirType::List(Box::new(MirType::I32));
        proof {
            reveal_with_fuel(crate::mir::type_model, 2);
        }
        assert(t@ == TypeModel::List(Box::new(TypeModel::I32)));
        return Some(t);
    }
    if str_eq(name, "list_get") {
        return Some(MirType::I64);
    }
    if str_eq(name, "list_len") {
        return Some(MirType::I64);
    }
    if str_eq(name, "substr") {
        return Some(MirType::Str);
    }
    if str_eq(name, "eq_str") {
        return Some(MirType::I32);
    }
    if str_eq(name, "json_parse") {
        let t = MirType::Dict(Box::new(MirType::Str), Box::new(MirType::I64));
        proof {
            reveal_with_fuel(crate::mir::type_model, 2);
        }
        assert(t@ == TypeModel::Dict(Box::new(TypeModel::Str), Box::new(TypeModel::I64)));
        return Some(t);
    }
    if str_eq(name, "json_stringify") || str_eq(name, "json_stringify_str") {
        return Some(MirType::Str);
    }
    if str_eq(name, "serialize") {
        return Some(MirType::Str);
    }
    if str_eq(name, "ky_struct_to_json") {
        return Some(MirType::Str);
    }
    if str_eq(name, "type") {
        return Some(make_typeinfo_type());
    }
    if str_eq(name, "ceil") || str_eq(name, "floor") || str_eq(name, "round") {
        return Some(MirType::F64);
    }
    if str_eq(name, "ky_getenv") || str_eq(name, "ky_setenv") || str_eq(name, "ky_base64_encode") || str_eq(name, "ky_sha1") {
        return Some(MirType::Str);
    }
    if str_eq(name, "ky_spawn_thread") || str_eq(name, "ky_join_thread") || str_eq(name, "ky_parallel_for") {
        return Some(MirType::I64);
    }
    if str_eq(name, "ky_channel_new") {
        return Some(MirType::I64);
    }
    if str_eq(name, "ky_channel_send") || str_eq(name, "ky_channel_recv") || str_eq(name, "ky_channel_len") || str_eq(name, "ky_channel_free") {
        return Some(MirType::I64);
    }
    if str_eq(name, "ky_channel_close") {
        return Some(MirType::Void);
    }
    if str_eq(name, "ok") || str_eq(name, "error") {
        return Some(make_result_type());
    }
    if str_eq(name, "box") {
        return None;
    }
    if str_eq(name, "ky_list_remove_value") {
        return Some(MirType::I32);
    }
    if str_eq(name, "ky_dict_contains") {
        return Some(MirType::I32);
    }
    if str_eq(name, "ky_dict_remove") {
        return Some(MirType::I64);
    }
    if str_eq(name, "ky_dict_keys") {
        let t = MirType::List(Box::new(MirType::I64));
        proof {
            reveal_with_fuel(crate::mir::type_model, 2);
        }
        assert(t@ == TypeModel::List(Box::new(TypeModel::I64)));
        return Some(t);
    }
    if str_eq(name, "ky_str_builder_new") || str_eq(name, "str_builder_new") {
        return Some(MirType::Str);
    }
    if str_eq(name, "str_builder_append") || str_eq(name, "str_builder_free") {
        return Some(MirType::Void);
    }
    if str_eq(name, "str_builder_to_str") {
        return Some(MirType::Str);
    }
    if str_eq(name, "ky_str_builder_append") || str_eq(name, "ky_str_builder_free") {
        return Some(MirType::Void);
    }
    if str_eq(name, "ky_str_builder_to_str") {
        return Some(MirType::Str);
    }
    if str_eq(name, "ky_fs_exists") || str_eq(name, "ky_fs_is_dir") || str_eq(name, "ky_fs_is_file") || str_eq(name, "ky_fs_copy") || str_eq(name, "ky_fs_remove") || str_eq(name, "ky_fs_create_dir") || str_eq(name, "ky_fs_remove_dir") || str_eq(name, "ky_fs_rename") || str_eq(name, "ky_fs_write_string") {
        return Some(MirType::I32);
    }
    if str_eq(name, "ky_fs_size") || str_eq(name, "ky_time_now_ms") || str_eq(name, "ky_time_now_us") || str_eq(name, "ky_fs_list_dir") || str_eq(name, "ky_set_len") {
        return Some(MirType::I64);
    }
    if str_eq(name, "ky_set_new") {
        let t = MirType::SetOf(Box::new(MirType::I32));
        proof {
            reveal_with_fuel(crate::mir::type_model, 2);
        }
        assert(t@ == TypeModel::SetOf(Box::new(TypeModel::I32)));
        return Some(t);
    }
    if str_eq(name, "ky_set_add") || str_eq(name, "ky_set_free") {
        return Some(MirType::Void);
    }
    if str_eq(name, "ky_set_contains") || str_eq(name, "ky_set_remove") {
        return Some(MirType::I32);
    }
    if str_eq(name, "ky_set_difference") || str_eq(name, "ky_set_symmetric_difference") || str_eq(name, "ky_set_union") || str_eq(name, "ky_set_intersection") {
        let t = MirType::SetOf(Box::new(MirType::I64));
        proof {
            reveal_with_fuel(crate::mir::type_model, 2);
        }
        assert(t@ == TypeModel::SetOf(Box::new(TypeModel::I64)));
        return Some(t);
    }
    if str_eq(name, "ky_set_is_subset") {
        return Some(MirType::I32);
    }
    if str_eq(name, "ky_str_to_list") {
        let t = MirType::List(Box::new(MirType::Str));
        proof {
            reveal_with_fuel(crate::mir::type_model, 2);
        }
        assert(t@ == TypeModel::List(Box::new(TypeModel::Str)));
        return Some(t);
    }
    if str_eq(name, "ky_set_to_list") || str_eq(name, "ky_queue_to_list") || str_eq(name, "ky_stack_to_list") {
        let t = MirType::List(Box::new(MirType::I64));
        proof {
            reveal_with_fuel(crate::mir::type_model, 2);
        }
        assert(t@ == TypeModel::List(Box::new(TypeModel::I64)));
        return Some(t);
    }
    if str_eq(name, "ky_queue_to_stack") {
        let t = MirType::Stack(Box::new(MirType::I64));
        proof {
            reveal_with_fuel(crate::mir::type_model, 2);
        }
        assert(t@ == TypeModel::Stack(Box::new(TypeModel::I64)));
        return Some(t);
    }
    if str_eq(name, "ky_stack_to_queue") {
        let t = MirType::Queue(Box::new(MirType::I64));
        proof {
            reveal_with_fuel(crate::mir::type_model, 2);
        }
        assert(t@ == TypeModel::Queue(Box::new(TypeModel::I64)));
        return Some(t);
    }
    if str_eq(name, "ky_open") {
        return Some(MirType::I32);
    }
    if str_eq(name, "ky_read_str") {
        return Some(MirType::Str);
    }
    if str_eq(name, "ky_write_str") || str_eq(name, "ky_close") {
        return Some(MirType::I32);
    }
    if str_eq(name, "ky_fs_read_to_string") {
        return Some(MirType::Str);
    }
    if str_eq(name, "ky_bytes_new") {
        return Some(MirType::Bytes);
    }
    if str_eq(name, "ky_bytes_get") || str_eq(name, "ky_bytes_set") {
        return Some(MirType::I32);
    }
    if str_eq(name, "ky_bytes_to_hex") || str_eq(name, "ky_bytes_to_base64") {
        return Some(MirType::Str);
    }
    if str_eq(name, "ky_bytes_from_hex") {
        return Some(MirType::Bytes);
    }
    None
}

} // verus!
