//! Byte constants for the wire texts the library emits and matches.

use vstd::prelude::*;

verus! {

/// The bytes of `jsonrpc`.
pub open spec fn spec_tok_jsonrpc() -> Seq<u8> {
    seq![106u8, 115u8, 111u8, 110u8, 114u8, 112u8, 99u8]
}

/// The bytes of `jsonrpc`.
pub fn tok_jsonrpc() -> (r: Vec<u8>)
    ensures
        r@ == spec_tok_jsonrpc(),
{
    let mut r: Vec<u8> = Vec::new();
    r.push(106u8);
    r.push(115u8);
    r.push(111u8);
    r.push(110u8);
    r.push(114u8);
    r.push(112u8);
    r.push(99u8);
    proof {
        assert(r@ =~= spec_tok_jsonrpc());
    }
    r
}

/// The bytes of `2.0`.
pub open spec fn spec_tok_proto() -> Seq<u8> {
    seq![50u8, 46u8, 48u8]
}

/// The bytes of `2.0`.
pub fn tok_proto() -> (r: Vec<u8>)
    ensures
        r@ == spec_tok_proto(),
{
    let mut r: Vec<u8> = Vec::new();
    r.push(50u8);
    r.push(46u8);
    r.push(48u8);
    proof {
        assert(r@ =~= spec_tok_proto());
    }
    r
}

/// The bytes of `method`.
pub open spec fn spec_tok_method() -> Seq<u8> {
    seq![109u8, 101u8, 116u8, 104u8, 111u8, 100u8]
}

/// The bytes of `method`.
pub fn tok_method() -> (r: Vec<u8>)
    ensures
        r@ == spec_tok_method(),
{
    let mut r: Vec<u8> = Vec::new();
    r.push(109u8);
    r.push(101u8);
    r.push(116u8);
    r.push(104u8);
    r.push(111u8);
    r.push(100u8);
    proof {
        assert(r@ =~= spec_tok_method());
    }
    r
}

/// The bytes of `params`.
pub open spec fn spec_tok_params() -> Seq<u8> {
    seq![112u8, 97u8, 114u8, 97u8, 109u8, 115u8]
}

/// The bytes of `params`.
pub fn tok_params() -> (r: Vec<u8>)
    ensures
        r@ == spec_tok_params(),
{
    let mut r: Vec<u8> = Vec::new();
    r.push(112u8);
    r.push(97u8);
    r.push(114u8);
    r.push(97u8);
    r.push(109u8);
    r.push(115u8);
    proof {
        assert(r@ =~= spec_tok_params());
    }
    r
}

/// The bytes of `id`.
pub open spec fn spec_tok_id() -> Seq<u8> {
    seq![105u8, 100u8]
}

/// The bytes of `id`.
pub fn tok_id() -> (r: Vec<u8>)
    ensures
        r@ == spec_tok_id(),
{
    let mut r: Vec<u8> = Vec::new();
    r.push(105u8);
    r.push(100u8);
    proof {
        assert(r@ =~= spec_tok_id());
    }
    r
}

/// The bytes of `result`.
pub open spec fn spec_tok_result() -> Seq<u8> {
    seq![114u8, 101u8, 115u8, 117u8, 108u8, 116u8]
}

/// The bytes of `result`.
pub fn tok_result() -> (r: Vec<u8>)
    ensures
        r@ == spec_tok_result(),
{
    let mut r: Vec<u8> = Vec::new();
    r.push(114u8);
    r.push(101u8);
    r.push(115u8);
    r.push(117u8);
    r.push(108u8);
    r.push(116u8);
    proof {
        assert(r@ =~= spec_tok_result());
    }
    r
}

/// The bytes of `error`.
pub open spec fn spec_tok_error() -> Seq<u8> {
    seq![101u8, 114u8, 114u8, 111u8, 114u8]
}

/// The bytes of `error`.
pub fn tok_error() -> (r: Vec<u8>)
    ensures
        r@ == spec_tok_error(),
{
    let mut r: Vec<u8> = Vec::new();
    r.push(101u8);
    r.push(114u8);
    r.push(114u8);
    r.push(111u8);
    r.push(114u8);
    proof {
        assert(r@ =~= spec_tok_error());
    }
    r
}

/// The bytes of `code`.
pub open spec fn spec_tok_code() -> Seq<u8> {
    seq![99u8, 111u8, 100u8, 101u8]
}

/// The bytes of `code`.
pub fn tok_code() -> (r: Vec<u8>)
    ensures
        r@ == spec_tok_code(),
{
    let mut r: Vec<u8> = Vec::new();
    r.push(99u8);
    r.push(111u8);
    r.push(100u8);
    r.push(101u8);
    proof {
        assert(r@ =~= spec_tok_code());
    }
    r
}

/// The bytes of `message`.
pub open spec fn spec_tok_message() -> Seq<u8> {
    seq![109u8, 101u8, 115u8, 115u8, 97u8, 103u8, 101u8]
}

/// The bytes of `message`.
pub fn tok_message() -> (r: Vec<u8>)
    ensures
        r@ == spec_tok_message(),
{
    let mut r: Vec<u8> = Vec::new();
    r.push(109u8);
    r.push(101u8);
    r.push(115u8);
    r.push(115u8);
    r.push(97u8);
    r.push(103u8);
    r.push(101u8);
    proof {
        assert(r@ =~= spec_tok_message());
    }
    r
}

/// The bytes of `data`.
pub open spec fn spec_tok_data() -> Seq<u8> {
    seq![100u8, 97u8, 116u8, 97u8]
}

/// The bytes of `data`.
pub fn tok_data() -> (r: Vec<u8>)
    ensures
        r@ == spec_tok_data(),
{
    let mut r: Vec<u8> = Vec::new();
    r.push(100u8);
    r.push(97u8);
    r.push(116u8);
    r.push(97u8);
    proof {
        assert(r@ =~= spec_tok_data());
    }
    r
}

/// The bytes of `Parse error`.
pub open spec fn spec_tok_parse_error_msg() -> Seq<u8> {
    seq![80u8, 97u8, 114u8, 115u8, 101u8, 32u8, 101u8, 114u8, 114u8, 111u8, 114u8]
}

/// The bytes of `Parse error`.
pub fn tok_parse_error_msg() -> (r: Vec<u8>)
    ensures
        r@ == spec_tok_parse_error_msg(),
{
    let mut r: Vec<u8> = Vec::new();
    r.push(80u8);
    r.push(97u8);
    r.push(114u8);
    r.push(115u8);
    r.push(101u8);
    r.push(32u8);
    r.push(101u8);
    r.push(114u8);
    r.push(114u8);
    r.push(111u8);
    r.push(114u8);
    proof {
        assert(r@ =~= spec_tok_parse_error_msg());
    }
    r
}

/// The bytes of `Invalid Request`.
pub open spec fn spec_tok_invalid_request_msg() -> Seq<u8> {
    seq![73u8, 110u8, 118u8, 97u8, 108u8, 105u8, 100u8, 32u8, 82u8, 101u8, 113u8, 117u8, 101u8, 115u8, 116u8]
}

/// The bytes of `Invalid Request`.
pub fn tok_invalid_request_msg() -> (r: Vec<u8>)
    ensures
        r@ == spec_tok_invalid_request_msg(),
{
    let mut r: Vec<u8> = Vec::new();
    r.push(73u8);
    r.push(110u8);
    r.push(118u8);
    r.push(97u8);
    r.push(108u8);
    r.push(105u8);
    r.push(100u8);
    r.push(32u8);
    r.push(82u8);
    r.push(101u8);
    r.push(113u8);
    r.push(117u8);
    r.push(101u8);
    r.push(115u8);
    r.push(116u8);
    proof {
        assert(r@ =~= spec_tok_invalid_request_msg());
    }
    r
}

/// The bytes of `Method not found`.
pub open spec fn spec_tok_method_not_found_msg() -> Seq<u8> {
    seq![77u8, 101u8, 116u8, 104u8, 111u8, 100u8, 32u8, 110u8, 111u8, 116u8, 32u8, 102u8, 111u8, 117u8, 110u8, 100u8]
}

/// The bytes of `Method not found`.
pub fn tok_method_not_found_msg() -> (r: Vec<u8>)
    ensures
        r@ == spec_tok_method_not_found_msg(),
{
    let mut r: Vec<u8> = Vec::new();
    r.push(77u8);
    r.push(101u8);
    r.push(116u8);
    r.push(104u8);
    r.push(111u8);
    r.push(100u8);
    r.push(32u8);
    r.push(110u8);
    r.push(111u8);
    r.push(116u8);
    r.push(32u8);
    r.push(102u8);
    r.push(111u8);
    r.push(117u8);
    r.push(110u8);
    r.push(100u8);
    proof {
        assert(r@ =~= spec_tok_method_not_found_msg());
    }
    r
}

/// The bytes of `Invalid params`.
pub open spec fn spec_tok_invalid_params_msg() -> Seq<u8> {
    seq![73u8, 110u8, 118u8, 97u8, 108u8, 105u8, 100u8, 32u8, 112u8, 97u8, 114u8, 97u8, 109u8, 115u8]
}

/// The bytes of `Invalid params`.
pub fn tok_invalid_params_msg() -> (r: Vec<u8>)
    ensures
        r@ == spec_tok_invalid_params_msg(),
{
    let mut r: Vec<u8> = Vec::new();
    r.push(73u8);
    r.push(110u8);
    r.push(118u8);
    r.push(97u8);
    r.push(108u8);
    r.push(105u8);
    r.push(100u8);
    r.push(32u8);
    r.push(112u8);
    r.push(97u8);
    r.push(114u8);
    r.push(97u8);
    r.push(109u8);
    r.push(115u8);
    proof {
        assert(r@ =~= spec_tok_invalid_params_msg());
    }
    r
}

/// The bytes of `Internal error`.
pub open spec fn spec_tok_internal_error_msg() -> Seq<u8> {
    seq![73u8, 110u8, 116u8, 101u8, 114u8, 110u8, 97u8, 108u8, 32u8, 101u8, 114u8, 114u8, 111u8, 114u8]
}

/// The bytes of `Internal error`.
pub fn tok_internal_error_msg() -> (r: Vec<u8>)
    ensures
        r@ == spec_tok_internal_error_msg(),
{
    let mut r: Vec<u8> = Vec::new();
    r.push(73u8);
    r.push(110u8);
    r.push(116u8);
    r.push(101u8);
    r.push(114u8);
    r.push(110u8);
    r.push(97u8);
    r.push(108u8);
    r.push(32u8);
    r.push(101u8);
    r.push(114u8);
    r.push(114u8);
    r.push(111u8);
    r.push(114u8);
    proof {
        assert(r@ =~= spec_tok_internal_error_msg());
    }
    r
}

/// The bytes of `Request is too big`.
pub open spec fn spec_tok_too_big_msg() -> Seq<u8> {
    seq![82u8, 101u8, 113u8, 117u8, 101u8, 115u8, 116u8, 32u8, 105u8, 115u8, 32u8, 116u8, 111u8, 111u8, 32u8, 98u8, 105u8, 103u8]
}

/// The bytes of `Request is too big`.
pub fn tok_too_big_msg() -> (r: Vec<u8>)
    ensures
        r@ == spec_tok_too_big_msg(),
{
    let mut r: Vec<u8> = Vec::new();
    r.push(82u8);
    r.push(101u8);
    r.push(113u8);
    r.push(117u8);
    r.push(101u8);
    r.push(115u8);
    r.push(116u8);
    r.push(32u8);
    r.push(105u8);
    r.push(115u8);
    r.push(32u8);
    r.push(116u8);
    r.push(111u8);
    r.push(111u8);
    r.push(32u8);
    r.push(98u8);
    r.push(105u8);
    r.push(103u8);
    proof {
        assert(r@ =~= spec_tok_too_big_msg());
    }
    r
}

/// The bytes of `Exceeded max limit of `.
pub open spec fn spec_tok_limit_prefix_msg() -> Seq<u8> {
    seq![69u8, 120u8, 99u8, 101u8, 101u8, 100u8, 101u8, 100u8, 32u8, 109u8, 97u8, 120u8, 32u8, 108u8, 105u8, 109u8, 105u8, 116u8, 32u8, 111u8, 102u8, 32u8]
}

/// The bytes of `Exceeded max limit of `.
pub fn tok_limit_prefix_msg() -> (r: Vec<u8>)
    ensures
        r@ == spec_tok_limit_prefix_msg(),
{
    let mut r: Vec<u8> = Vec::new();
    r.push(69u8);
    r.push(120u8);
    r.push(99u8);
    r.push(101u8);
    r.push(101u8);
    r.push(100u8);
    r.push(101u8);
    r.push(100u8);
    r.push(32u8);
    r.push(109u8);
    r.push(97u8);
    r.push(120u8);
    r.push(32u8);
    r.push(108u8);
    r.push(105u8);
    r.push(109u8);
    r.push(105u8);
    r.push(116u8);
    r.push(32u8);
    r.push(111u8);
    r.push(102u8);
    r.push(32u8);
    proof {
        assert(r@ =~= spec_tok_limit_prefix_msg());
    }
    r
}

/// The bytes of `starknet_`.
pub open spec fn spec_tok_pre_starknet() -> Seq<u8> {
    seq![115u8, 116u8, 97u8, 114u8, 107u8, 110u8, 101u8, 116u8, 95u8]
}

/// The bytes of `starknet_`.
pub fn tok_pre_starknet() -> (r: Vec<u8>)
    ensures
        r@ == spec_tok_pre_starknet(),
{
    let mut r: Vec<u8> = Vec::new();
    r.push(115u8);
    r.push(116u8);
    r.push(97u8);
    r.push(114u8);
    r.push(107u8);
    r.push(110u8);
    r.push(101u8);
    r.push(116u8);
    r.push(95u8);
    proof {
        assert(r@ =~= spec_tok_pre_starknet());
    }
    r
}

/// The bytes of `pathfinder_`.
pub open spec fn spec_tok_pre_pathfinder() -> Seq<u8> {
    seq![112u8, 97u8, 116u8, 104u8, 102u8, 105u8, 110u8, 100u8, 101u8, 114u8, 95u8]
}

/// The bytes of `pathfinder_`.
pub fn tok_pre_pathfinder() -> (r: Vec<u8>)
    ensures
        r@ == spec_tok_pre_pathfinder(),
{
    let mut r: Vec<u8> = Vec::new();
    r.push(112u8);
    r.push(97u8);
    r.push(116u8);
    r.push(104u8);
    r.push(102u8);
    r.push(105u8);
    r.push(110u8);
    r.push(100u8);
    r.push(101u8);
    r.push(114u8);
    r.push(95u8);
    proof {
        assert(r@ =~= spec_tok_pre_pathfinder());
    }
    r
}

/// The bytes of `v0.1_`.
pub open spec fn spec_tok_tag_v01() -> Seq<u8> {
    seq![118u8, 48u8, 46u8, 49u8, 95u8]
}

/// The bytes of `v0.1_`.
pub fn tok_tag_v01() -> (r: Vec<u8>)
    ensures
        r@ == spec_tok_tag_v01(),
{
    let mut r: Vec<u8> = Vec::new();
    r.push(118u8);
    r.push(48u8);
    r.push(46u8);
    r.push(49u8);
    r.push(95u8);
    proof {
        assert(r@ =~= spec_tok_tag_v01());
    }
    r
}

/// The bytes of `v0.2_`.
pub open spec fn spec_tok_tag_v02() -> Seq<u8> {
    seq![118u8, 48u8, 46u8, 50u8, 95u8]
}

/// The bytes of `v0.2_`.
pub fn tok_tag_v02() -> (r: Vec<u8>)
    ensures
        r@ == spec_tok_tag_v02(),
{
    let mut r: Vec<u8> = Vec::new();
    r.push(118u8);
    r.push(48u8);
    r.push(46u8);
    r.push(50u8);
    r.push(95u8);
    proof {
        assert(r@ =~= spec_tok_tag_v02());
    }
    r
}

/// The bytes of `v0.3_`.
pub open spec fn spec_tok_tag_v03() -> Seq<u8> {
    seq![118u8, 48u8, 46u8, 51u8, 95u8]
}

/// The bytes of `v0.3_`.
pub fn tok_tag_v03() -> (r: Vec<u8>)
    ensures
        r@ == spec_tok_tag_v03(),
{
    let mut r: Vec<u8> = Vec::new();
    r.push(118u8);
    r.push(48u8);
    r.push(46u8);
    r.push(51u8);
    r.push(95u8);
    proof {
        assert(r@ =~= spec_tok_tag_v03());
    }
    r
}

/// The bytes of `/`.
pub open spec fn spec_tok_path_root() -> Seq<u8> {
    seq![47u8]
}

/// The bytes of `/`.
pub fn tok_path_root() -> (r: Vec<u8>)
    ensures
        r@ == spec_tok_path_root(),
{
    let mut r: Vec<u8> = Vec::new();
    r.push(47u8);
    proof {
        assert(r@ =~= spec_tok_path_root());
    }
    r
}

/// The bytes of `/rpc/v0.2`.
pub open spec fn spec_tok_path_v02() -> Seq<u8> {
    seq![47u8, 114u8, 112u8, 99u8, 47u8, 118u8, 48u8, 46u8, 50u8]
}

/// The bytes of `/rpc/v0.2`.
pub fn tok_path_v02() -> (r: Vec<u8>)
    ensures
        r@ == spec_tok_path_v02(),
{
    let mut r: Vec<u8> = Vec::new();
    r.push(47u8);
    r.push(114u8);
    r.push(112u8);
    r.push(99u8);
    r.push(47u8);
    r.push(118u8);
    r.push(48u8);
    r.push(46u8);
    r.push(50u8);
    proof {
        assert(r@ =~= spec_tok_path_v02());
    }
    r
}

/// The bytes of `/rpc/v0.2/`.
pub open spec fn spec_tok_path_v02_slash() -> Seq<u8> {
    seq![47u8, 114u8, 112u8, 99u8, 47u8, 118u8, 48u8, 46u8, 50u8, 47u8]
}

/// The bytes of `/rpc/v0.2/`.
pub fn tok_path_v02_slash() -> (r: Vec<u8>)
    ensures
        r@ == spec_tok_path_v02_slash(),
{
    let mut r: Vec<u8> = Vec::new();
    r.push(47u8);
    r.push(114u8);
    r.push(112u8);
    r.push(99u8);
    r.push(47u8);
    r.push(118u8);
    r.push(48u8);
    r.push(46u8);
    r.push(50u8);
    r.push(47u8);
    proof {
        assert(r@ =~= spec_tok_path_v02_slash());
    }
    r
}

/// The bytes of `/rpc/v0.3`.
pub open spec fn spec_tok_path_v03() -> Seq<u8> {
    seq![47u8, 114u8, 112u8, 99u8, 47u8, 118u8, 48u8, 46u8, 51u8]
}

/// The bytes of `/rpc/v0.3`.
pub fn tok_path_v03() -> (r: Vec<u8>)
    ensures
        r@ == spec_tok_path_v03(),
{
    let mut r: Vec<u8> = Vec::new();
    r.push(47u8);
    r.push(114u8);
    r.push(112u8);
    r.push(99u8);
    r.push(47u8);
    r.push(118u8);
    r.push(48u8);
    r.push(46u8);
    r.push(51u8);
    proof {
        assert(r@ =~= spec_tok_path_v03());
    }
    r
}

/// The bytes of `/rpc/v0.3/`.
pub open spec fn spec_tok_path_v03_slash() -> Seq<u8> {
    seq![47u8, 114u8, 112u8, 99u8, 47u8, 118u8, 48u8, 46u8, 51u8, 47u8]
}

/// The bytes of `/rpc/v0.3/`.
pub fn tok_path_v03_slash() -> (r: Vec<u8>)
    ensures
        r@ == spec_tok_path_v03_slash(),
{
    let mut r: Vec<u8> = Vec::new();
    r.push(47u8);
    r.push(114u8);
    r.push(112u8);
    r.push(99u8);
    r.push(47u8);
    r.push(118u8);
    r.push(48u8);
    r.push(46u8);
    r.push(51u8);
    r.push(47u8);
    proof {
        assert(r@ =~= spec_tok_path_v03_slash());
    }
    r
}

/// The bytes of `/rpc/pathfinder/v0.1`.
pub open spec fn spec_tok_path_pathfinder() -> Seq<u8> {
    seq![47u8, 114u8, 112u8, 99u8, 47u8, 112u8, 97u8, 116u8, 104u8, 102u8, 105u8, 110u8, 100u8, 101u8, 114u8, 47u8, 118u8, 48u8, 46u8, 49u8]
}

/// The bytes of `/rpc/pathfinder/v0.1`.
pub fn tok_path_pathfinder() -> (r: Vec<u8>)
    ensures
        r@ == spec_tok_path_pathfinder(),
{
    let mut r: Vec<u8> = Vec::new();
    r.push(47u8);
    r.push(114u8);
    r.push(112u8);
    r.push(99u8);
    r.push(47u8);
    r.push(112u8);
    r.push(97u8);
    r.push(116u8);
    r.push(104u8);
    r.push(102u8);
    r.push(105u8);
    r.push(110u8);
    r.push(100u8);
    r.push(101u8);
    r.push(114u8);
    r.push(47u8);
    r.push(118u8);
    r.push(48u8);
    r.push(46u8);
    r.push(49u8);
    proof {
        assert(r@ =~= spec_tok_path_pathfinder());
    }
    r
}

/// The bytes of `/rpc/pathfinder/v0.1/`.
pub open spec fn spec_tok_path_pathfinder_slash() -> Seq<u8> {
    seq![47u8, 114u8, 112u8, 99u8, 47u8, 112u8, 97u8, 116u8, 104u8, 102u8, 105u8, 110u8, 100u8, 101u8, 114u8, 47u8, 118u8, 48u8, 46u8, 49u8, 47u8]
}

/// The bytes of `/rpc/pathfinder/v0.1/`.
pub fn tok_path_pathfinder_slash() -> (r: Vec<u8>)
    ensures
        r@ == spec_tok_path_pathfinder_slash(),
{
    let mut r: Vec<u8> = Vec::new();
    r.push(47u8);
    r.push(114u8);
    r.push(112u8);
    r.push(99u8);
    r.push(47u8);
    r.push(112u8);
    r.push(97u8);
    r.push(116u8);
    r.push(104u8);
    r.push(102u8);
    r.push(105u8);
    r.push(110u8);
    r.push(100u8);
    r.push(101u8);
    r.push(114u8);
    r.push(47u8);
    r.push(118u8);
    r.push(48u8);
    r.push(46u8);
    r.push(49u8);
    r.push(47u8);
    proof {
        assert(r@ =~= spec_tok_path_pathfinder_slash());
    }
    r
}

/// The bytes of `application/json`.
pub open spec fn spec_tok_ct_json() -> Seq<u8> {
    seq![97u8, 112u8, 112u8, 108u8, 105u8, 99u8, 97u8, 116u8, 105u8, 111u8, 110u8, 47u8, 106u8, 115u8, 111u8, 110u8]
}

/// The bytes of `application/json`.
pub fn tok_ct_json() -> (r: Vec<u8>)
    ensures
        r@ == spec_tok_ct_json(),
{
    let mut r: Vec<u8> = Vec::new();
    r.push(97u8);
    r.push(112u8);
    r.push(112u8);
    r.push(108u8);
    r.push(105u8);
    r.push(99u8);
    r.push(97u8);
    r.push(116u8);
    r.push(105u8);
    r.push(111u8);
    r.push(110u8);
    r.push(47u8);
    r.push(106u8);
    r.push(115u8);
    r.push(111u8);
    r.push(110u8);
    proof {
        assert(r@ =~= spec_tok_ct_json());
    }
    r
}

/// The bytes of `application/json; charset=utf-8`.
pub open spec fn spec_tok_ct_json_utf8() -> Seq<u8> {
    seq![97u8, 112u8, 112u8, 108u8, 105u8, 99u8, 97u8, 116u8, 105u8, 111u8, 110u8, 47u8, 106u8, 115u8, 111u8, 110u8, 59u8, 32u8, 99u8, 104u8, 97u8, 114u8, 115u8, 101u8, 116u8, 61u8, 117u8, 116u8, 102u8, 45u8, 56u8]
}

/// The bytes of `application/json; charset=utf-8`.
#[verifier::rlimit(50)]
pub fn tok_ct_json_utf8() -> (r: Vec<u8>)
    ensures
        r@ == spec_tok_ct_json_utf8(),
{
    let mut r: Vec<u8> = Vec::new();
    r.push(97u8);
    r.push(112u8);
    r.push(112u8);
    r.push(108u8);
    r.push(105u8);
    r.push(99u8);
    r.push(97u8);
    r.push(116u8);
    r.push(105u8);
    r.push(111u8);
    r.push(110u8);
    r.push(47u8);
    r.push(106u8);
    r.push(115u8);
    r.push(111u8);
    r.push(110u8);
    r.push(59u8);
    r.push(32u8);
    r.push(99u8);
    r.push(104u8);
    r.push(97u8);
    r.push(114u8);
    r.push(115u8);
    r.push(101u8);
    r.push(116u8);
    r.push(61u8);
    r.push(117u8);
    r.push(116u8);
    r.push(102u8);
    r.push(45u8);
    r.push(56u8);
    proof {
        assert(r@ =~= spec_tok_ct_json_utf8());
    }
    r
}

/// The bytes of `text/plain`.
pub open spec fn spec_tok_ct_text() -> Seq<u8> {
    seq![116u8, 101u8, 120u8, 116u8, 47u8, 112u8, 108u8, 97u8, 105u8, 110u8]
}

/// The bytes of `text/plain`.
pub fn tok_ct_text() -> (r: Vec<u8>)
    ensures
        r@ == spec_tok_ct_text(),
{
    let mut r: Vec<u8> = Vec::new();
    r.push(116u8);
    r.push(101u8);
    r.push(120u8);
    r.push(116u8);
    r.push(47u8);
    r.push(112u8);
    r.push(108u8);
    r.push(97u8);
    r.push(105u8);
    r.push(110u8);
    proof {
        assert(r@ =~= spec_tok_ct_text());
    }
    r
}

/// The bytes of `Not Found`.
pub open spec fn spec_tok_reason_not_found() -> Seq<u8> {
    seq![78u8, 111u8, 116u8, 32u8, 70u8, 111u8, 117u8, 110u8, 100u8]
}

/// The bytes of `Not Found`.
pub fn tok_reason_not_found() -> (r: Vec<u8>)
    ensures
        r@ == spec_tok_reason_not_found(),
{
    let mut r: Vec<u8> = Vec::new();
    r.push(78u8);
    r.push(111u8);
    r.push(116u8);
    r.push(32u8);
    r.push(70u8);
    r.push(111u8);
    r.push(117u8);
    r.push(110u8);
    r.push(100u8);
    proof {
        assert(r@ =~= spec_tok_reason_not_found());
    }
    r
}

/// The bytes of `v0.3`.
pub open spec fn spec_tok_ver_v03() -> Seq<u8> {
    seq![118u8, 48u8, 46u8, 51u8]
}

/// The bytes of `v0.3`.
pub fn tok_ver_v03() -> (r: Vec<u8>)
    ensures
        r@ == spec_tok_ver_v03(),
{
    let mut r: Vec<u8> = Vec::new();
    r.push(118u8);
    r.push(48u8);
    r.push(46u8);
    r.push(51u8);
    proof {
        assert(r@ =~= spec_tok_ver_v03());
    }
    r
}

/// The bytes of `Failed to write transaction`.
pub open spec fn spec_tok_dm_failed_to_receive_txn() -> Seq<u8> {
    seq![70u8, 97u8, 105u8, 108u8, 101u8, 100u8, 32u8, 116u8, 111u8, 32u8, 119u8, 114u8, 105u8, 116u8, 101u8, 32u8, 116u8, 114u8, 97u8, 110u8, 115u8, 97u8, 99u8, 116u8, 105u8, 111u8, 110u8]
}

/// The bytes of `Failed to write transaction`.
pub fn tok_dm_failed_to_receive_txn() -> (r: Vec<u8>)
    ensures
        r@ == spec_tok_dm_failed_to_receive_txn(),
{
    let mut r: Vec<u8> = Vec::new();
    r.push(70u8);
    r.push(97u8);
    r.push(105u8);
    r.push(108u8);
    r.push(101u8);
    r.push(100u8);
    r.push(32u8);
    r.push(116u8);
    r.push(111u8);
    r.push(32u8);
    r.push(119u8);
    r.push(114u8);
    r.push(105u8);
    r.push(116u8);
    r.push(101u8);
    r.push(32u8);
    r.push(116u8);
    r.push(114u8);
    r.push(97u8);
    r.push(110u8);
    r.push(115u8);
    r.push(97u8);
    r.push(99u8);
    r.push(116u8);
    r.push(105u8);
    r.push(111u8);
    r.push(110u8);
    proof {
        assert(r@ =~= spec_tok_dm_failed_to_receive_txn());
    }
    r
}

/// The bytes of `Contract not found`.
pub open spec fn spec_tok_dm_contract_not_found() -> Seq<u8> {
    seq![67u8, 111u8, 110u8, 116u8, 114u8, 97u8, 99u8, 116u8, 32u8, 110u8, 111u8, 116u8, 32u8, 102u8, 111u8, 117u8, 110u8, 100u8]
}

/// The bytes of `Contract not found`.
pub fn tok_dm_contract_not_found() -> (r: Vec<u8>)
    ensures
        r@ == spec_tok_dm_contract_not_found(),
{
    let mut r: Vec<u8> = Vec::new();
    r.push(67u8);
    r.push(111u8);
    r.push(110u8);
    r.push(116u8);
    r.push(114u8);
    r.push(97u8);
    r.push(99u8);
    r.push(116u8);
    r.push(32u8);
    r.push(110u8);
    r.push(111u8);
    r.push(116u8);
    r.push(32u8);
    r.push(102u8);
    r.push(111u8);
    r.push(117u8);
    r.push(110u8);
    r.push(100u8);
    proof {
        assert(r@ =~= spec_tok_dm_contract_not_found());
    }
    r
}

/// The bytes of `Block not found`.
pub open spec fn spec_tok_dm_block_not_found() -> Seq<u8> {
    seq![66u8, 108u8, 111u8, 99u8, 107u8, 32u8, 110u8, 111u8, 116u8, 32u8, 102u8, 111u8, 117u8, 110u8, 100u8]
}

/// The bytes of `Block not found`.
pub fn tok_dm_block_not_found() -> (r: Vec<u8>)
    ensures
        r@ == spec_tok_dm_block_not_found(),
{
    let mut r: Vec<u8> = Vec::new();
    r.push(66u8);
    r.push(108u8);
    r.push(111u8);
    r.push(99u8);
    r.push(107u8);
    r.push(32u8);
    r.push(110u8);
    r.push(111u8);
    r.push(116u8);
    r.push(32u8);
    r.push(102u8);
    r.push(111u8);
    r.push(117u8);
    r.push(110u8);
    r.push(100u8);
    proof {
        assert(r@ =~= spec_tok_dm_block_not_found());
    }
    r
}

/// The bytes of `Transaction hash not found`.
pub open spec fn spec_tok_dm_txn_hash_not_found() -> Seq<u8> {
    seq![84u8, 114u8, 97u8, 110u8, 115u8, 97u8, 99u8, 116u8, 105u8, 111u8, 110u8, 32u8, 104u8, 97u8, 115u8, 104u8, 32u8, 110u8, 111u8, 116u8, 32u8, 102u8, 111u8, 117u8, 110u8, 100u8]
}

/// The bytes of `Transaction hash not found`.
pub fn tok_dm_txn_hash_not_found() -> (r: Vec<u8>)
    ensures
        r@ == spec_tok_dm_txn_hash_not_found(),
{
    let mut r: Vec<u8> = Vec::new();
    r.push(84u8);
    r.push(114u8);
    r.push(97u8);
    r.push(110u8);
    r.push(115u8);
    r.push(97u8);
    r.push(99u8);
    r.push(116u8);
    r.push(105u8);
    r.push(111u8);
    r.push(110u8);
    r.push(32u8);
    r.push(104u8);
    r.push(97u8);
    r.push(115u8);
    r.push(104u8);
    r.push(32u8);
    r.push(110u8);
    r.push(111u8);
    r.push(116u8);
    r.push(32u8);
    r.push(102u8);
    r.push(111u8);
    r.push(117u8);
    r.push(110u8);
    r.push(100u8);
    proof {
        assert(r@ =~= spec_tok_dm_txn_hash_not_found());
    }
    r
}

/// The bytes of `Invalid transaction index in a block`.
pub open spec fn spec_tok_dm_invalid_txn_index() -> Seq<u8> {
    seq![73u8, 110u8, 118u8, 97u8, 108u8, 105u8, 100u8, 32u8, 116u8, 114u8, 97u8, 110u8, 115u8, 97u8, 99u8, 116u8, 105u8, 111u8, 110u8, 32u8, 105u8, 110u8, 100u8, 101u8, 120u8, 32u8, 105u8, 110u8, 32u8, 97u8, 32u8, 98u8, 108u8, 111u8, 99u8, 107u8]
}

/// The bytes of `Invalid transaction index in a block`.
#[verifier::rlimit(50)]
pub fn tok_dm_invalid_txn_index() -> (r: Vec<u8>)
    ensures
        r@ == spec_tok_dm_invalid_txn_index(),
{
    let mut r: Vec<u8> = Vec::new();
    r.push(73u8);
    r.push(110u8);
    r.push(118u8);
    r.push(97u8);
    r.push(108u8);
    r.push(105u8);
    r.push(100u8);
    r.push(32u8);
    r.push(116u8);
    r.push(114u8);
    r.push(97u8);
    r.push(110u8);
    r.push(115u8);
    r.push(97u8);
    r.push(99u8);
    r.push(116u8);
    r.push(105u8);
    r.push(111u8);
    r.push(110u8);
    r.push(32u8);
    r.push(105u8);
    r.push(110u8);
    r.push(100u8);
    r.push(101u8);
    r.push(120u8);
    r.push(32u8);
    r.push(105u8);
    r.push(110u8);
    r.push(32u8);
    r.push(97u8);
    r.push(32u8);
    r.push(98u8);
    r.push(108u8);
    r.push(111u8);
    r.push(99u8);
    r.push(107u8);
    proof {
        assert(r@ =~= spec_tok_dm_invalid_txn_index());
    }
    r
}

/// The bytes of `Invalid transaction hash`.
pub open spec fn spec_tok_dm_invalid_txn_hash() -> Seq<u8> {
    seq![73u8, 110u8, 118u8, 97u8, 108u8, 105u8, 100u8, 32u8, 116u8, 114u8, 97u8, 110u8, 115u8, 97u8, 99u8, 116u8, 105u8, 111u8, 110u8, 32u8, 104u8, 97u8, 115u8, 104u8]
}

/// The bytes of `Invalid transaction hash`.
pub fn tok_dm_invalid_txn_hash() -> (r: Vec<u8>)
    ensures
        r@ == spec_tok_dm_invalid_txn_hash(),
{
    let mut r: Vec<u8> = Vec::new();
    r.push(73u8);
    r.push(110u8);
    r.push(118u8);
    r.push(97u8);
    r.push(108u8);
    r.push(105u8);
    r.push(100u8);
    r.push(32u8);
    r.push(116u8);
    r.push(114u8);
    r.push(97u8);
    r.push(110u8);
    r.push(115u8);
    r.push(97u8);
    r.push(99u8);
    r.push(116u8);
    r.push(105u8);
    r.push(111u8);
    r.push(110u8);
    r.push(32u8);
    r.push(104u8);
    r.push(97u8);
    r.push(115u8);
    r.push(104u8);
    proof {
        assert(r@ =~= spec_tok_dm_invalid_txn_hash());
    }
    r
}

/// The bytes of `Invalid block hash`.
pub open spec fn spec_tok_dm_invalid_block_hash() -> Seq<u8> {
    seq![73u8, 110u8, 118u8, 97u8, 108u8, 105u8, 100u8, 32u8, 98u8, 108u8, 111u8, 99u8, 107u8, 32u8, 104u8, 97u8, 115u8, 104u8]
}

/// The bytes of `Invalid block hash`.
pub fn tok_dm_invalid_block_hash() -> (r: Vec<u8>)
    ensures
        r@ == spec_tok_dm_invalid_block_hash(),
{
    let mut r: Vec<u8> = Vec::new();
    r.push(73u8);
    r.push(110u8);
    r.push(118u8);
    r.push(97u8);
    r.push(108u8);
    r.push(105u8);
    r.push(100u8);
    r.push(32u8);
    r.push(98u8);
    r.push(108u8);
    r.push(111u8);
    r.push(99u8);
    r.push(107u8);
    r.push(32u8);
    r.push(104u8);
    r.push(97u8);
    r.push(115u8);
    r.push(104u8);
    proof {
        assert(r@ =~= spec_tok_dm_invalid_block_hash());
    }
    r
}

/// The bytes of `Class hash not found`.
pub open spec fn spec_tok_dm_class_hash_not_found() -> Seq<u8> {
    seq![67u8, 108u8, 97u8, 115u8, 115u8, 32u8, 104u8, 97u8, 115u8, 104u8, 32u8, 110u8, 111u8, 116u8, 32u8, 102u8, 111u8, 117u8, 110u8, 100u8]
}

/// The bytes of `Class hash not found`.
pub fn tok_dm_class_hash_not_found() -> (r: Vec<u8>)
    ensures
        r@ == spec_tok_dm_class_hash_not_found(),
{
    let mut r: Vec<u8> = Vec::new();
    r.push(67u8);
    r.push(108u8);
    r.push(97u8);
    r.push(115u8);
    r.push(115u8);
    r.push(32u8);
    r.push(104u8);
    r.push(97u8);
    r.push(115u8);
    r.push(104u8);
    r.push(32u8);
    r.push(110u8);
    r.push(111u8);
    r.push(116u8);
    r.push(32u8);
    r.push(102u8);
    r.push(111u8);
    r.push(117u8);
    r.push(110u8);
    r.push(100u8);
    proof {
        assert(r@ =~= spec_tok_dm_class_hash_not_found());
    }
    r
}

/// The bytes of `Requested page size is too big`.
pub open spec fn spec_tok_dm_page_size_too_big() -> Seq<u8> {
    seq![82u8, 101u8, 113u8, 117u8, 101u8, 115u8, 116u8, 101u8, 100u8, 32u8, 112u8, 97u8, 103u8, 101u8, 32u8, 115u8, 105u8, 122u8, 101u8, 32u8, 105u8, 115u8, 32u8, 116u8, 111u8, 111u8, 32u8, 98u8, 105u8, 103u8]
}

/// The bytes of `Requested page size is too big`.
pub fn tok_dm_page_size_too_big() -> (r: Vec<u8>)
    ensures
        r@ == spec_tok_dm_page_size_too_big(),
{
    let mut r: Vec<u8> = Vec::new();
    r.push(82u8);
    r.push(101u8);
    r.push(113u8);
    r.push(117u8);
    r.push(101u8);
    r.push(115u8);
    r.push(116u8);
    r.push(101u8);
    r.push(100u8);
    r.push(32u8);
    r.push(112u8);
    r.push(97u8);
    r.push(103u8);
    r.push(101u8);
    r.push(32u8);
    r.push(115u8);
    r.push(105u8);
    r.push(122u8);
    r.push(101u8);
    r.push(32u8);
    r.push(105u8);
    r.push(115u8);
    r.push(32u8);
    r.push(116u8);
    r.push(111u8);
    r.push(111u8);
    r.push(32u8);
    r.push(98u8);
    r.push(105u8);
    r.push(103u8);
    proof {
        assert(r@ =~= spec_tok_dm_page_size_too_big());
    }
    r
}

/// The bytes of `There are no blocks`.
pub open spec fn spec_tok_dm_no_blocks() -> Seq<u8> {
    seq![84u8, 104u8, 101u8, 114u8, 101u8, 32u8, 97u8, 114u8, 101u8, 32u8, 110u8, 111u8, 32u8, 98u8, 108u8, 111u8, 99u8, 107u8, 115u8]
}

/// The bytes of `There are no blocks`.
pub fn tok_dm_no_blocks() -> (r: Vec<u8>)
    ensures
        r@ == spec_tok_dm_no_blocks(),
{
    let mut r: Vec<u8> = Vec::new();
    r.push(84u8);
    r.push(104u8);
    r.push(101u8);
    r.push(114u8);
    r.push(101u8);
    r.push(32u8);
    r.push(97u8);
    r.push(114u8);
    r.push(101u8);
    r.push(32u8);
    r.push(110u8);
    r.push(111u8);
    r.push(32u8);
    r.push(98u8);
    r.push(108u8);
    r.push(111u8);
    r.push(99u8);
    r.push(107u8);
    r.push(115u8);
    proof {
        assert(r@ =~= spec_tok_dm_no_blocks());
    }
    r
}

/// The bytes of `No trace available`.
pub open spec fn spec_tok_dm_no_trace_available() -> Seq<u8> {
    seq![78u8, 111u8, 32u8, 116u8, 114u8, 97u8, 99u8, 101u8, 32u8, 97u8, 118u8, 97u8, 105u8, 108u8, 97u8, 98u8, 108u8, 101u8]
}

/// The bytes of `No trace available`.
pub fn tok_dm_no_trace_available() -> (r: Vec<u8>)
    ensures
        r@ == spec_tok_dm_no_trace_available(),
{
    let mut r: Vec<u8> = Vec::new();
    r.push(78u8);
    r.push(111u8);
    r.push(32u8);
    r.push(116u8);
    r.push(114u8);
    r.push(97u8);
    r.push(99u8);
    r.push(101u8);
    r.push(32u8);
    r.push(97u8);
    r.push(118u8);
    r.push(97u8);
    r.push(105u8);
    r.push(108u8);
    r.push(97u8);
    r.push(98u8);
    r.push(108u8);
    r.push(101u8);
    proof {
        assert(r@ =~= spec_tok_dm_no_trace_available());
    }
    r
}

/// The bytes of `The supplied continuation token is invalid or unknown`.
pub open spec fn spec_tok_dm_invalid_continuation_token() -> Seq<u8> {
    seq![84u8, 104u8, 101u8, 32u8, 115u8, 117u8, 112u8, 112u8, 108u8, 105u8, 101u8, 100u8, 32u8, 99u8, 111u8, 110u8, 116u8, 105u8, 110u8, 117u8, 97u8, 116u8, 105u8, 111u8, 110u8, 32u8, 116u8, 111u8, 107u8, 101u8, 110u8, 32u8, 105u8, 115u8, 32u8, 105u8, 110u8, 118u8, 97u8, 108u8, 105u8, 100u8, 32u8, 111u8, 114u8, 32u8, 117u8, 110u8, 107u8, 110u8, 111u8, 119u8, 110u8]
}

/// The bytes of `The supplied continuation token is invalid or unknown`.
#[verifier::rlimit(50)]
pub fn tok_dm_invalid_continuation_token() -> (r: Vec<u8>)
    ensures
        r@ == spec_tok_dm_invalid_continuation_token(),
{
    let mut r: Vec<u8> = Vec::new();
    r.push(84u8);
    r.push(104u8);
    r.push(101u8);
    r.push(32u8);
    r.push(115u8);
    r.push(117u8);
    r.push(112u8);
    r.push(112u8);
    r.push(108u8);
    r.push(105u8);
    r.push(101u8);
    r.push(100u8);
    r.push(32u8);
    r.push(99u8);
    r.push(111u8);
    r.push(110u8);
    r.push(116u8);
    r.push(105u8);
    r.push(110u8);
    r.push(117u8);
    r.push(97u8);
    r.push(116u8);
    r.push(105u8);
    r.push(111u8);
    r.push(110u8);
    r.push(32u8);
    r.push(116u8);
    r.push(111u8);
    r.push(107u8);
    r.push(101u8);
    r.push(110u8);
    r.push(32u8);
    r.push(105u8);
    r.push(115u8);
    r.push(32u8);
    r.push(105u8);
    r.push(110u8);
    r.push(118u8);
    r.push(97u8);
    r.push(108u8);
    r.push(105u8);
    r.push(100u8);
    r.push(32u8);
    r.push(111u8);
    r.push(114u8);
    r.push(32u8);
    r.push(117u8);
    r.push(110u8);
    r.push(107u8);
    r.push(110u8);
    r.push(111u8);
    r.push(119u8);
    r.push(110u8);
    proof {
        assert(r@ =~= spec_tok_dm_invalid_continuation_token());
    }
    r
}

/// The bytes of `Too many keys provided in a filter`.
pub open spec fn spec_tok_dm_too_many_keys_in_filter() -> Seq<u8> {
    seq![84u8, 111u8, 111u8, 32u8, 109u8, 97u8, 110u8, 121u8, 32u8, 107u8, 101u8, 121u8, 115u8, 32u8, 112u8, 114u8, 111u8, 118u8, 105u8, 100u8, 101u8, 100u8, 32u8, 105u8, 110u8, 32u8, 97u8, 32u8, 102u8, 105u8, 108u8, 116u8, 101u8, 114u8]
}

/// The bytes of `Too many keys provided in a filter`.
#[verifier::rlimit(50)]
pub fn tok_dm_too_many_keys_in_filter() -> (r: Vec<u8>)
    ensures
        r@ == spec_tok_dm_too_many_keys_in_filter(),
{
    let mut r: Vec<u8> = Vec::new();
    r.push(84u8);
    r.push(111u8);
    r.push(111u8);
    r.push(32u8);
    r.push(109u8);
    r.push(97u8);
    r.push(110u8);
    r.push(121u8);
    r.push(32u8);
    r.push(107u8);
    r.push(101u8);
    r.push(121u8);
    r.push(115u8);
    r.push(32u8);
    r.push(112u8);
    r.push(114u8);
    r.push(111u8);
    r.push(118u8);
    r.push(105u8);
    r.push(100u8);
    r.push(101u8);
    r.push(100u8);
    r.push(32u8);
    r.push(105u8);
    r.push(110u8);
    r.push(32u8);
    r.push(97u8);
    r.push(32u8);
    r.push(102u8);
    r.push(105u8);
    r.push(108u8);
    r.push(116u8);
    r.push(101u8);
    r.push(114u8);
    proof {
        assert(r@ =~= spec_tok_dm_too_many_keys_in_filter());
    }
    r
}

/// The bytes of `Contract error`.
pub open spec fn spec_tok_dm_contract_error() -> Seq<u8> {
    seq![67u8, 111u8, 110u8, 116u8, 114u8, 97u8, 99u8, 116u8, 32u8, 101u8, 114u8, 114u8, 111u8, 114u8]
}

/// The bytes of `Contract error`.
pub fn tok_dm_contract_error() -> (r: Vec<u8>)
    ensures
        r@ == spec_tok_dm_contract_error(),
{
    let mut r: Vec<u8> = Vec::new();
    r.push(67u8);
    r.push(111u8);
    r.push(110u8);
    r.push(116u8);
    r.push(114u8);
    r.push(97u8);
    r.push(99u8);
    r.push(116u8);
    r.push(32u8);
    r.push(101u8);
    r.push(114u8);
    r.push(114u8);
    r.push(111u8);
    r.push(114u8);
    proof {
        assert(r@ =~= spec_tok_dm_contract_error());
    }
    r
}

/// The bytes of `Invalid contract class`.
pub open spec fn spec_tok_dm_invalid_contract_class() -> Seq<u8> {
    seq![73u8, 110u8, 118u8, 97u8, 108u8, 105u8, 100u8, 32u8, 99u8, 111u8, 110u8, 116u8, 114u8, 97u8, 99u8, 116u8, 32u8, 99u8, 108u8, 97u8, 115u8, 115u8]
}

/// The bytes of `Invalid contract class`.
pub fn tok_dm_invalid_contract_class() -> (r: Vec<u8>)
    ensures
        r@ == spec_tok_dm_invalid_contract_class(),
{
    let mut r: Vec<u8> = Vec::new();
    r.push(73u8);
    r.push(110u8);
    r.push(118u8);
    r.push(97u8);
    r.push(108u8);
    r.push(105u8);
    r.push(100u8);
    r.push(32u8);
    r.push(99u8);
    r.push(111u8);
    r.push(110u8);
    r.push(116u8);
    r.push(114u8);
    r.push(97u8);
    r.push(99u8);
    r.push(116u8);
    r.push(32u8);
    r.push(99u8);
    r.push(108u8);
    r.push(97u8);
    r.push(115u8);
    r.push(115u8);
    proof {
        assert(r@ =~= spec_tok_dm_invalid_contract_class());
    }
    r
}

/// The bytes of `Class already declared`.
pub open spec fn spec_tok_dm_class_already_declared() -> Seq<u8> {
    seq![67u8, 108u8, 97u8, 115u8, 115u8, 32u8, 97u8, 108u8, 114u8, 101u8, 97u8, 100u8, 121u8, 32u8, 100u8, 101u8, 99u8, 108u8, 97u8, 114u8, 101u8, 100u8]
}

/// The bytes of `Class already declared`.
pub fn tok_dm_class_already_declared() -> (r: Vec<u8>)
    ensures
        r@ == spec_tok_dm_class_already_declared(),
{
    let mut r: Vec<u8> = Vec::new();
    r.push(67u8);
    r.push(108u8);
    r.push(97u8);
    r.push(115u8);
    r.push(115u8);
    r.push(32u8);
    r.push(97u8);
    r.push(108u8);
    r.push(114u8);
    r.push(101u8);
    r.push(97u8);
    r.push(100u8);
    r.push(121u8);
    r.push(32u8);
    r.push(100u8);
    r.push(101u8);
    r.push(99u8);
    r.push(108u8);
    r.push(97u8);
    r.push(114u8);
    r.push(101u8);
    r.push(100u8);
    proof {
        assert(r@ =~= spec_tok_dm_class_already_declared());
    }
    r
}

/// The bytes of `Invalid transaction nonce`.
pub open spec fn spec_tok_dm_invalid_transaction_nonce() -> Seq<u8> {
    seq![73u8, 110u8, 118u8, 97u8, 108u8, 105u8, 100u8, 32u8, 116u8, 114u8, 97u8, 110u8, 115u8, 97u8, 99u8, 116u8, 105u8, 111u8, 110u8, 32u8, 110u8, 111u8, 110u8, 99u8, 101u8]
}

/// The bytes of `Invalid transaction nonce`.
pub fn tok_dm_invalid_transaction_nonce() -> (r: Vec<u8>)
    ensures
        r@ == spec_tok_dm_invalid_transaction_nonce(),
{
    let mut r: Vec<u8> = Vec::new();
    r.push(73u8);
    r.push(110u8);
    r.push(118u8);
    r.push(97u8);
    r.push(108u8);
    r.push(105u8);
    r.push(100u8);
    r.push(32u8);
    r.push(116u8);
    r.push(114u8);
    r.push(97u8);
    r.push(110u8);
    r.push(115u8);
    r.push(97u8);
    r.push(99u8);
    r.push(116u8);
    r.push(105u8);
    r.push(111u8);
    r.push(110u8);
    r.push(32u8);
    r.push(110u8);
    r.push(111u8);
    r.push(110u8);
    r.push(99u8);
    r.push(101u8);
    proof {
        assert(r@ =~= spec_tok_dm_invalid_transaction_nonce());
    }
    r
}

/// The bytes of `Max fee is smaller than the minimal transaction cost (validation plus fee transfer)`.
pub open spec fn spec_tok_dm_insufficient_max_fee() -> Seq<u8> {
    seq![77u8, 97u8, 120u8, 32u8, 102u8, 101u8, 101u8, 32u8, 105u8, 115u8, 32u8, 115u8, 109u8, 97u8, 108u8, 108u8, 101u8, 114u8, 32u8, 116u8, 104u8, 97u8, 110u8, 32u8, 116u8, 104u8, 101u8, 32u8, 109u8, 105u8, 110u8, 105u8, 109u8, 97u8, 108u8, 32u8, 116u8, 114u8, 97u8, 110u8, 115u8, 97u8, 99u8, 116u8, 105u8, 111u8, 110u8, 32u8, 99u8, 111u8, 115u8, 116u8, 32u8, 40u8, 118u8, 97u8, 108u8, 105u8, 100u8, 97u8, 116u8, 105u8, 111u8, 110u8, 32u8, 112u8, 108u8, 117u8, 115u8, 32u8, 102u8, 101u8, 101u8, 32u8, 116u8, 114u8, 97u8, 110u8, 115u8, 102u8, 101u8, 114u8, 41u8]
}

/// The bytes of `Max fee is smaller than the minimal transaction cost (validation plus fee transfer)`.
#[verifier::rlimit(100)]
pub fn tok_dm_insufficient_max_fee() -> (r: Vec<u8>)
    ensures
        r@ == spec_tok_dm_insufficient_max_fee(),
{
    let mut r: Vec<u8> = Vec::new();
    r.push(77u8);
    r.push(97u8);
    r.push(120u8);
    r.push(32u8);
    r.push(102u8);
    r.push(101u8);
    r.push(101u8);
    r.push(32u8);
    r.push(105u8);
    r.push(115u8);
    r.push(32u8);
    r.push(115u8);
    r.push(109u8);
    r.push(97u8);
    r.push(108u8);
    r.push(108u8);
    r.push(101u8);
    r.push(114u8);
    r.push(32u8);
    r.push(116u8);
    r.push(104u8);
    r.push(97u8);
    r.push(110u8);
    r.push(32u8);
    r.push(116u8);
    r.push(104u8);
    r.push(101u8);
    r.push(32u8);
    r.push(109u8);
    r.push(105u8);
    r.push(110u8);
    r.push(105u8);
    r.push(109u8);
    r.push(97u8);
    r.push(108u8);
    r.push(32u8);
    r.push(116u8);
    r.push(114u8);
    r.push(97u8);
    r.push(110u8);
    r.push(115u8);
    r.push(97u8);
    r.push(99u8);
    r.push(116u8);
    r.push(105u8);
    r.push(111u8);
    r.push(110u8);
    r.push(32u8);
    r.push(99u8);
    r.push(111u8);
    r.push(115u8);
    r.push(116u8);
    r.push(32u8);
    r.push(40u8);
    r.push(118u8);
    r.push(97u8);
    r.push(108u8);
    r.push(105u8);
    r.push(100u8);
    r.push(97u8);
    r.push(116u8);
    r.push(105u8);
    r.push(111u8);
    r.push(110u8);
    r.push(32u8);
    r.push(112u8);
    r.push(108u8);
    r.push(117u8);
    r.push(115u8);
    r.push(32u8);
    r.push(102u8);
    r.push(101u8);
    r.push(101u8);
    r.push(32u8);
    r.push(116u8);
    r.push(114u8);
    r.push(97u8);
    r.push(110u8);
    r.push(115u8);
    r.push(102u8);
    r.push(101u8);
    r.push(114u8);
    r.push(41u8);
    proof {
        assert(r@ =~= spec_tok_dm_insufficient_max_fee());
    }
    r
}

/// The bytes of `Account balance is smaller than the transaction's max_fee`.
pub open spec fn spec_tok_dm_insufficient_account_balance() -> Seq<u8> {
    seq![65u8, 99u8, 99u8, 111u8, 117u8, 110u8, 116u8, 32u8, 98u8, 97u8, 108u8, 97u8, 110u8, 99u8, 101u8, 32u8, 105u8, 115u8, 32u8, 115u8, 109u8, 97u8, 108u8, 108u8, 101u8, 114u8, 32u8, 116u8, 104u8, 97u8, 110u8, 32u8, 116u8, 104u8, 101u8, 32u8, 116u8, 114u8, 97u8, 110u8, 115u8, 97u8, 99u8, 116u8, 105u8, 111u8, 110u8, 39u8, 115u8, 32u8, 109u8, 97u8, 120u8, 95u8, 102u8, 101u8, 101u8]
}

/// The bytes of `Account balance is smaller than the transaction's max_fee`.
#[verifier::rlimit(50)]
pub fn tok_dm_insufficient_account_balance() -> (r: Vec<u8>)
    ensures
        r@ == spec_tok_dm_insufficient_account_balance(),
{
    let mut r: Vec<u8> = Vec::new();
    r.push(65u8);
    r.push(99u8);
    r.push(99u8);
    r.push(111u8);
    r.push(117u8);
    r.push(110u8);
    r.push(116u8);
    r.push(32u8);
    r.push(98u8);
    r.push(97u8);
    r.push(108u8);
    r.push(97u8);
    r.push(110u8);
    r.push(99u8);
    r.push(101u8);
    r.push(32u8);
    r.push(105u8);
    r.push(115u8);
    r.push(32u8);
    r.push(115u8);
    r.push(109u8);
    r.push(97u8);
    r.push(108u8);
    r.push(108u8);
    r.push(101u8);
    r.push(114u8);
    r.push(32u8);
    r.push(116u8);
    r.push(104u8);
    r.push(97u8);
    r.push(110u8);
    r.push(32u8);
    r.push(116u8);
    r.push(104u8);
    r.push(101u8);
    r.push(32u8);
    r.push(116u8);
    r.push(114u8);
    r.push(97u8);
    r.push(110u8);
    r.push(115u8);
    r.push(97u8);
    r.push(99u8);
    r.push(116u8);
    r.push(105u8);
    r.push(111u8);
    r.push(110u8);
    r.push(39u8);
    r.push(115u8);
    r.push(32u8);
    r.push(109u8);
    r.push(97u8);
    r.push(120u8);
    r.push(95u8);
    r.push(102u8);
    r.push(101u8);
    r.push(101u8);
    proof {
        assert(r@ =~= spec_tok_dm_insufficient_account_balance());
    }
    r
}

/// The bytes of `Account validation failed`.
pub open spec fn spec_tok_dm_validation_failure() -> Seq<u8> {
    seq![65u8, 99u8, 99u8, 111u8, 117u8, 110u8, 116u8, 32u8, 118u8, 97u8, 108u8, 105u8, 100u8, 97u8, 116u8, 105u8, 111u8, 110u8, 32u8, 102u8, 97u8, 105u8, 108u8, 101u8, 100u8]
}

/// The bytes of `Account validation failed`.
pub fn tok_dm_validation_failure() -> (r: Vec<u8>)
    ensures
        r@ == spec_tok_dm_validation_failure(),
{
    let mut r: Vec<u8> = Vec::new();
    r.push(65u8);
    r.push(99u8);
    r.push(99u8);
    r.push(111u8);
    r.push(117u8);
    r.push(110u8);
    r.push(116u8);
    r.push(32u8);
    r.push(118u8);
    r.push(97u8);
    r.push(108u8);
    r.push(105u8);
    r.push(100u8);
    r.push(97u8);
    r.push(116u8);
    r.push(105u8);
    r.push(111u8);
    r.push(110u8);
    r.push(32u8);
    r.push(102u8);
    r.push(97u8);
    r.push(105u8);
    r.push(108u8);
    r.push(101u8);
    r.push(100u8);
    proof {
        assert(r@ =~= spec_tok_dm_validation_failure());
    }
    r
}

/// The bytes of `Compilation failed`.
pub open spec fn spec_tok_dm_compilation_failed() -> Seq<u8> {
    seq![67u8, 111u8, 109u8, 112u8, 105u8, 108u8, 97u8, 116u8, 105u8, 111u8, 110u8, 32u8, 102u8, 97u8, 105u8, 108u8, 101u8, 100u8]
}

/// The bytes of `Compilation failed`.
pub fn tok_dm_compilation_failed() -> (r: Vec<u8>)
    ensures
        r@ == spec_tok_dm_compilation_failed(),
{
    let mut r: Vec<u8> = Vec::new();
    r.push(67u8);
    r.push(111u8);
    r.push(109u8);
    r.push(112u8);
    r.push(105u8);
    r.push(108u8);
    r.push(97u8);
    r.push(116u8);
    r.push(105u8);
    r.push(111u8);
    r.push(110u8);
    r.push(32u8);
    r.push(102u8);
    r.push(97u8);
    r.push(105u8);
    r.push(108u8);
    r.push(101u8);
    r.push(100u8);
    proof {
        assert(r@ =~= spec_tok_dm_compilation_failed());
    }
    r
}

/// The bytes of `Contract class size it too large`.
pub open spec fn spec_tok_dm_contract_class_size_too_large() -> Seq<u8> {
    seq![67u8, 111u8, 110u8, 116u8, 114u8, 97u8, 99u8, 116u8, 32u8, 99u8, 108u8, 97u8, 115u8, 115u8, 32u8, 115u8, 105u8, 122u8, 101u8, 32u8, 105u8, 116u8, 32u8, 116u8, 111u8, 111u8, 32u8, 108u8, 97u8, 114u8, 103u8, 101u8]
}

/// The bytes of `Contract class size it too large`.
#[verifier::rlimit(50)]
pub fn tok_dm_contract_class_size_too_large() -> (r: Vec<u8>)
    ensures
        r@ == spec_tok_dm_contract_class_size_too_large(),
{
    let mut r: Vec<u8> = Vec::new();
    r.push(67u8);
    r.push(111u8);
    r.push(110u8);
    r.push(116u8);
    r.push(114u8);
    r.push(97u8);
    r.push(99u8);
    r.push(116u8);
    r.push(32u8);
    r.push(99u8);
    r.push(108u8);
    r.push(97u8);
    r.push(115u8);
    r.push(115u8);
    r.push(32u8);
    r.push(115u8);
    r.push(105u8);
    r.push(122u8);
    r.push(101u8);
    r.push(32u8);
    r.push(105u8);
    r.push(116u8);
    r.push(32u8);
    r.push(116u8);
    r.push(111u8);
    r.push(111u8);
    r.push(32u8);
    r.push(108u8);
    r.push(97u8);
    r.push(114u8);
    r.push(103u8);
    r.push(101u8);
    proof {
        assert(r@ =~= spec_tok_dm_contract_class_size_too_large());
    }
    r
}

/// The bytes of `Sender address in not an account contract`.
pub open spec fn spec_tok_dm_non_account() -> Seq<u8> {
    seq![83u8, 101u8, 110u8, 100u8, 101u8, 114u8, 32u8, 97u8, 100u8, 100u8, 114u8, 101u8, 115u8, 115u8, 32u8, 105u8, 110u8, 32u8, 110u8, 111u8, 116u8, 32u8, 97u8, 110u8, 32u8, 97u8, 99u8, 99u8, 111u8, 117u8, 110u8, 116u8, 32u8, 99u8, 111u8, 110u8, 116u8, 114u8, 97u8, 99u8, 116u8]
}

/// The bytes of `Sender address in not an account contract`.
#[verifier::rlimit(50)]
pub fn tok_dm_non_account() -> (r: Vec<u8>)
    ensures
        r@ == spec_tok_dm_non_account(),
{
    let mut r: Vec<u8> = Vec::new();
    r.push(83u8);
    r.push(101u8);
    r.push(110u8);
    r.push(100u8);
    r.push(101u8);
    r.push(114u8);
    r.push(32u8);
    r.push(97u8);
    r.push(100u8);
    r.push(100u8);
    r.push(114u8);
    r.push(101u8);
    r.push(115u8);
    r.push(115u8);
    r.push(32u8);
    r.push(105u8);
    r.push(110u8);
    r.push(32u8);
    r.push(110u8);
    r.push(111u8);
    r.push(116u8);
    r.push(32u8);
    r.push(97u8);
    r.push(110u8);
    r.push(32u8);
    r.push(97u8);
    r.push(99u8);
    r.push(99u8);
    r.push(111u8);
    r.push(117u8);
    r.push(110u8);
    r.push(116u8);
    r.push(32u8);
    r.push(99u8);
    r.push(111u8);
    r.push(110u8);
    r.push(116u8);
    r.push(114u8);
    r.push(97u8);
    r.push(99u8);
    r.push(116u8);
    proof {
        assert(r@ =~= spec_tok_dm_non_account());
    }
    r
}

/// The bytes of `A transaction with the same hash already exists in the mempool`.
pub open spec fn spec_tok_dm_duplicate_transaction() -> Seq<u8> {
    seq![65u8, 32u8, 116u8, 114u8, 97u8, 110u8, 115u8, 97u8, 99u8, 116u8, 105u8, 111u8, 110u8, 32u8, 119u8, 105u8, 116u8, 104u8, 32u8, 116u8, 104u8, 101u8, 32u8, 115u8, 97u8, 109u8, 101u8, 32u8, 104u8, 97u8, 115u8, 104u8, 32u8, 97u8, 108u8, 114u8, 101u8, 97u8, 100u8, 121u8, 32u8, 101u8, 120u8, 105u8, 115u8, 116u8, 115u8, 32u8, 105u8, 110u8, 32u8, 116u8, 104u8, 101u8, 32u8, 109u8, 101u8, 109u8, 112u8, 111u8, 111u8, 108u8]
}

/// The bytes of `A transaction with the same hash already exists in the mempool`.
#[verifier::rlimit(50)]
pub fn tok_dm_duplicate_transaction() -> (r: Vec<u8>)
    ensures
        r@ == spec_tok_dm_duplicate_transaction(),
{
    let mut r: Vec<u8> = Vec::new();
    r.push(65u8);
    r.push(32u8);
    r.push(116u8);
    r.push(114u8);
    r.push(97u8);
    r.push(110u8);
    r.push(115u8);
    r.push(97u8);
    r.push(99u8);
    r.push(116u8);
    r.push(105u8);
    r.push(111u8);
    r.push(110u8);
    r.push(32u8);
    r.push(119u8);
    r.push(105u8);
    r.push(116u8);
    r.push(104u8);
    r.push(32u8);
    r.push(116u8);
    r.push(104u8);
    r.push(101u8);
    r.push(32u8);
    r.push(115u8);
    r.push(97u8);
    r.push(109u8);
    r.push(101u8);
    r.push(32u8);
    r.push(104u8);
    r.push(97u8);
    r.push(115u8);
    r.push(104u8);
    r.push(32u8);
    r.push(97u8);
    r.push(108u8);
    r.push(114u8);
    r.push(101u8);
    r.push(97u8);
    r.push(100u8);
    r.push(121u8);
    r.push(32u8);
    r.push(101u8);
    r.push(120u8);
    r.push(105u8);
    r.push(115u8);
    r.push(116u8);
    r.push(115u8);
    r.push(32u8);
    r.push(105u8);
    r.push(110u8);
    r.push(32u8);
    r.push(116u8);
    r.push(104u8);
    r.push(101u8);
    r.push(32u8);
    r.push(109u8);
    r.push(101u8);
    r.push(109u8);
    r.push(112u8);
    r.push(111u8);
    r.push(111u8);
    r.push(108u8);
    proof {
        assert(r@ =~= spec_tok_dm_duplicate_transaction());
    }
    r
}

/// The bytes of `The compiled class hash did not match the one supplied in the transaction`.
pub open spec fn spec_tok_dm_compiled_class_hash_mismatch() -> Seq<u8> {
    seq![84u8, 104u8, 101u8, 32u8, 99u8, 111u8, 109u8, 112u8, 105u8, 108u8, 101u8, 100u8, 32u8, 99u8, 108u8, 97u8, 115u8, 115u8, 32u8, 104u8, 97u8, 115u8, 104u8, 32u8, 100u8, 105u8, 100u8, 32u8, 110u8, 111u8, 116u8, 32u8, 109u8, 97u8, 116u8, 99u8, 104u8, 32u8, 116u8, 104u8, 101u8, 32u8, 111u8, 110u8, 101u8, 32u8, 115u8, 117u8, 112u8, 112u8, 108u8, 105u8, 101u8, 100u8, 32u8, 105u8, 110u8, 32u8, 116u8, 104u8, 101u8, 32u8, 116u8, 114u8, 97u8, 110u8, 115u8, 97u8, 99u8, 116u8, 105u8, 111u8, 110u8]
}

/// The bytes of `The compiled class hash did not match the one supplied in the transaction`.
#[verifier::rlimit(100)]
pub fn tok_dm_compiled_class_hash_mismatch() -> (r: Vec<u8>)
    ensures
        r@ == spec_tok_dm_compiled_class_hash_mismatch(),
{
    let mut r: Vec<u8> = Vec::new();
    r.push(84u8);
    r.push(104u8);
    r.push(101u8);
    r.push(32u8);
    r.push(99u8);
    r.push(111u8);
    r.push(109u8);
    r.push(112u8);
    r.push(105u8);
    r.push(108u8);
    r.push(101u8);
    r.push(100u8);
    r.push(32u8);
    r.push(99u8);
    r.push(108u8);
    r.push(97u8);
    r.push(115u8);
    r.push(115u8);
    r.push(32u8);
    r.push(104u8);
    r.push(97u8);
    r.push(115u8);
    r.push(104u8);
    r.push(32u8);
    r.push(100u8);
    r.push(105u8);
    r.push(100u8);
    r.push(32u8);
    r.push(110u8);
    r.push(111u8);
    r.push(116u8);
    r.push(32u8);
    r.push(109u8);
    r.push(97u8);
    r.push(116u8);
    r.push(99u8);
    r.push(104u8);
    r.push(32u8);
    r.push(116u8);
    r.push(104u8);
    r.push(101u8);
    r.push(32u8);
    r.push(111u8);
    r.push(110u8);
    r.push(101u8);
    r.push(32u8);
    r.push(115u8);
    r.push(117u8);
    r.push(112u8);
    r.push(112u8);
    r.push(108u8);
    r.push(105u8);
    r.push(101u8);
    r.push(100u8);
    r.push(32u8);
    r.push(105u8);
    r.push(110u8);
    r.push(32u8);
    r.push(116u8);
    r.push(104u8);
    r.push(101u8);
    r.push(32u8);
    r.push(116u8);
    r.push(114u8);
    r.push(97u8);
    r.push(110u8);
    r.push(115u8);
    r.push(97u8);
    r.push(99u8);
    r.push(116u8);
    r.push(105u8);
    r.push(111u8);
    r.push(110u8);
    proof {
        assert(r@ =~= spec_tok_dm_compiled_class_hash_mismatch());
    }
    r
}

/// The bytes of `The transaction version is not supported`.
pub open spec fn spec_tok_dm_unsupported_tx_version() -> Seq<u8> {
    seq![84u8, 104u8, 101u8, 32u8, 116u8, 114u8, 97u8, 110u8, 115u8, 97u8, 99u8, 116u8, 105u8, 111u8, 110u8, 32u8, 118u8, 101u8, 114u8, 115u8, 105u8, 111u8, 110u8, 32u8, 105u8, 115u8, 32u8, 110u8, 111u8, 116u8, 32u8, 115u8, 117u8, 112u8, 112u8, 111u8, 114u8, 116u8, 101u8, 100u8]
}

/// The bytes of `The transaction version is not supported`.
#[verifier::rlimit(50)]
pub fn tok_dm_unsupported_tx_version() -> (r: Vec<u8>)
    ensures
        r@ == spec_tok_dm_unsupported_tx_version(),
{
    let mut r: Vec<u8> = Vec::new();
    r.push(84u8);
    r.push(104u8);
    r.push(101u8);
    r.push(32u8);
    r.push(116u8);
    r.push(114u8);
    r.push(97u8);
    r.push(110u8);
    r.push(115u8);
    r.push(97u8);
    r.push(99u8);
    r.push(116u8);
    r.push(105u8);
    r.push(111u8);
    r.push(110u8);
    r.push(32u8);
    r.push(118u8);
    r.push(101u8);
    r.push(114u8);
    r.push(115u8);
    r.push(105u8);
    r.push(111u8);
    r.push(110u8);
    r.push(32u8);
    r.push(105u8);
    r.push(115u8);
    r.push(32u8);
    r.push(110u8);
    r.push(111u8);
    r.push(116u8);
    r.push(32u8);
    r.push(115u8);
    r.push(117u8);
    r.push(112u8);
    r.push(112u8);
    r.push(111u8);
    r.push(114u8);
    r.push(116u8);
    r.push(101u8);
    r.push(100u8);
    proof {
        assert(r@ =~= spec_tok_dm_unsupported_tx_version());
    }
    r
}

/// The bytes of `The contract class version is not supported`.
pub open spec fn spec_tok_dm_unsupported_contract_class_version() -> Seq<u8> {
    seq![84u8, 104u8, 101u8, 32u8, 99u8, 111u8, 110u8, 116u8, 114u8, 97u8, 99u8, 116u8, 32u8, 99u8, 108u8, 97u8, 115u8, 115u8, 32u8, 118u8, 101u8, 114u8, 115u8, 105u8, 111u8, 110u8, 32u8, 105u8, 115u8, 32u8, 110u8, 111u8, 116u8, 32u8, 115u8, 117u8, 112u8, 112u8, 111u8, 114u8, 116u8, 101u8, 100u8]
}

/// The bytes of `The contract class version is not supported`.
#[verifier::rlimit(50)]
pub fn tok_dm_unsupported_contract_class_version() -> (r: Vec<u8>)
    ensures
        r@ == spec_tok_dm_unsupported_contract_class_version(),
{
    let mut r: Vec<u8> = Vec::new();
    r.push(84u8);
    r.push(104u8);
    r.push(101u8);
    r.push(32u8);
    r.push(99u8);
    r.push(111u8);
    r.push(110u8);
    r.push(116u8);
    r.push(114u8);
    r.push(97u8);
    r.push(99u8);
    r.push(116u8);
    r.push(32u8);
    r.push(99u8);
    r.push(108u8);
    r.push(97u8);
    r.push(115u8);
    r.push(115u8);
    r.push(32u8);
    r.push(118u8);
    r.push(101u8);
    r.push(114u8);
    r.push(115u8);
    r.push(105u8);
    r.push(111u8);
    r.push(110u8);
    r.push(32u8);
    r.push(105u8);
    r.push(115u8);
    r.push(32u8);
    r.push(110u8);
    r.push(111u8);
    r.push(116u8);
    r.push(32u8);
    r.push(115u8);
    r.push(117u8);
    r.push(112u8);
    r.push(112u8);
    r.push(111u8);
    r.push(114u8);
    r.push(116u8);
    r.push(101u8);
    r.push(100u8);
    proof {
        assert(r@ =~= spec_tok_dm_unsupported_contract_class_version());
    }
    r
}

/// The bytes of `An unexpected error occurred`.
pub open spec fn spec_tok_dm_unexpected_error() -> Seq<u8> {
    seq![65u8, 110u8, 32u8, 117u8, 110u8, 101u8, 120u8, 112u8, 101u8, 99u8, 116u8, 101u8, 100u8, 32u8, 101u8, 114u8, 114u8, 111u8, 114u8, 32u8, 111u8, 99u8, 99u8, 117u8, 114u8, 114u8, 101u8, 100u8]
}

/// The bytes of `An unexpected error occurred`.
pub fn tok_dm_unexpected_error() -> (r: Vec<u8>)
    ensures
        r@ == spec_tok_dm_unexpected_error(),
{
    let mut r: Vec<u8> = Vec::new();
    r.push(65u8);
    r.push(110u8);
    r.push(32u8);
    r.push(117u8);
    r.push(110u8);
    r.push(101u8);
    r.push(120u8);
    r.push(112u8);
    r.push(101u8);
    r.push(99u8);
    r.push(116u8);
    r.push(101u8);
    r.push(100u8);
    r.push(32u8);
    r.push(101u8);
    r.push(114u8);
    r.push(114u8);
    r.push(111u8);
    r.push(114u8);
    r.push(32u8);
    r.push(111u8);
    r.push(99u8);
    r.push(99u8);
    r.push(117u8);
    r.push(114u8);
    r.push(114u8);
    r.push(101u8);
    r.push(100u8);
    proof {
        assert(r@ =~= spec_tok_dm_unexpected_error());
    }
    r
}

/// The bytes of `Too many storage keys requested`.
pub open spec fn spec_tok_dm_proof_limit_exceeded() -> Seq<u8> {
    seq![84u8, 111u8, 111u8, 32u8, 109u8, 97u8, 110u8, 121u8, 32u8, 115u8, 116u8, 111u8, 114u8, 97u8, 103u8, 101u8, 32u8, 107u8, 101u8, 121u8, 115u8, 32u8, 114u8, 101u8, 113u8, 117u8, 101u8, 115u8, 116u8, 101u8, 100u8]
}

/// The bytes of `Too many storage keys requested`.
#[verifier::rlimit(50)]
pub fn tok_dm_proof_limit_exceeded() -> (r: Vec<u8>)
    ensures
        r@ == spec_tok_dm_proof_limit_exceeded(),
{
    let mut r: Vec<u8> = Vec::new();
    r.push(84u8);
    r.push(111u8);
    r.push(111u8);
    r.push(32u8);
    r.push(109u8);
    r.push(97u8);
    r.push(110u8);
    r.push(121u8);
    r.push(32u8);
    r.push(115u8);
    r.push(116u8);
    r.push(111u8);
    r.push(114u8);
    r.push(97u8);
    r.push(103u8);
    r.push(101u8);
    r.push(32u8);
    r.push(107u8);
    r.push(101u8);
    r.push(121u8);
    r.push(115u8);
    r.push(32u8);
    r.push(114u8);
    r.push(101u8);
    r.push(113u8);
    r.push(117u8);
    r.push(101u8);
    r.push(115u8);
    r.push(116u8);
    r.push(101u8);
    r.push(100u8);
    proof {
        assert(r@ =~= spec_tok_dm_proof_limit_exceeded());
    }
    r
}

} // verus!