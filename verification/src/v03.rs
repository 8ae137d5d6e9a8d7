//! The route table of the `v0.3` server: the documented method names,
//! in their documented order, bound to the handlers the caller supplies.

use vstd::prelude::*;

verus! {

use crate::jsonrpc::router::RpcRouter;
use crate::jsonrpc::router::RpcRouterBuilder;

/// The bytes of `starknet_addDeclareTransaction`.
pub open spec fn spec_route_name_0() -> Seq<u8> {
    seq![115u8, 116u8, 97u8, 114u8, 107u8, 110u8, 101u8, 116u8, 95u8, 97u8, 100u8, 100u8, 68u8, 101u8, 99u8, 108u8, 97u8, 114u8, 101u8, 84u8, 114u8, 97u8, 110u8, 115u8, 97u8, 99u8, 116u8, 105u8, 111u8, 110u8]
}

/// The bytes of `starknet_addDeployAccountTransaction`.
pub open spec fn spec_route_name_1() -> Seq<u8> {
    seq![115u8, 116u8, 97u8, 114u8, 107u8, 110u8, 101u8, 116u8, 95u8, 97u8, 100u8, 100u8, 68u8, 101u8, 112u8, 108u8, 111u8, 121u8, 65u8, 99u8, 99u8, 111u8, 117u8, 110u8, 116u8, 84u8, 114u8, 97u8, 110u8, 115u8, 97u8, 99u8, 116u8, 105u8, 111u8, 110u8]
}

/// The bytes of `starknet_addInvokeTransaction`.
pub open spec fn spec_route_name_2() -> Seq<u8> {
    seq![115u8, 116u8, 97u8, 114u8, 107u8, 110u8, 101u8, 116u8, 95u8, 97u8, 100u8, 100u8, 73u8, 110u8, 118u8, 111u8, 107u8, 101u8, 84u8, 114u8, 97u8, 110u8, 115u8, 97u8, 99u8, 116u8, 105u8, 111u8, 110u8]
}

/// The bytes of `starknet_blockHashAndNumber`.
pub open spec fn spec_route_name_3() -> Seq<u8> {
    seq![115u8, 116u8, 97u8, 114u8, 107u8, 110u8, 101u8, 116u8, 95u8, 98u8, 108u8, 111u8, 99u8, 107u8, 72u8, 97u8, 115u8, 104u8, 65u8, 110u8, 100u8, 78u8, 117u8, 109u8, 98u8, 101u8, 114u8]
}

/// The bytes of `starknet_blockNumber`.
pub open spec fn spec_route_name_4() -> Seq<u8> {
    seq![115u8, 116u8, 97u8, 114u8, 107u8, 110u8, 101u8, 116u8, 95u8, 98u8, 108u8, 111u8, 99u8, 107u8, 78u8, 117u8, 109u8, 98u8, 101u8, 114u8]
}

/// The bytes of `starknet_call`.
pub open spec fn spec_route_name_5() -> Seq<u8> {
    seq![115u8, 116u8, 97u8, 114u8, 107u8, 110u8, 101u8, 116u8, 95u8, 99u8, 97u8, 108u8, 108u8]
}

/// The bytes of `starknet_chainId`.
pub open spec fn spec_route_name_6() -> Seq<u8> {
    seq![115u8, 116u8, 97u8, 114u8, 107u8, 110u8, 101u8, 116u8, 95u8, 99u8, 104u8, 97u8, 105u8, 110u8, 73u8, 100u8]
}

/// The bytes of `starknet_getBlockWithTxHashes`.
pub open spec fn spec_route_name_7() -> Seq<u8> {
    seq![115u8, 116u8, 97u8, 114u8, 107u8, 110u8, 101u8, 116u8, 95u8, 103u8, 101u8, 116u8, 66u8, 108u8, 111u8, 99u8, 107u8, 87u8, 105u8, 116u8, 104u8, 84u8, 120u8, 72u8, 97u8, 115u8, 104u8, 101u8, 115u8]
}

/// The bytes of `starknet_getBlockWithTxs`.
pub open spec fn spec_route_name_8() -> Seq<u8> {
    seq![115u8, 116u8, 97u8, 114u8, 107u8, 110u8, 101u8, 116u8, 95u8, 103u8, 101u8, 116u8, 66u8, 108u8, 111u8, 99u8, 107u8, 87u8, 105u8, 116u8, 104u8, 84u8, 120u8, 115u8]
}

/// The bytes of `starknet_getBlockTransactionCount`.
pub open spec fn spec_route_name_9() -> Seq<u8> {
    seq![115u8, 116u8, 97u8, 114u8, 107u8, 110u8, 101u8, 116u8, 95u8, 103u8, 101u8, 116u8, 66u8, 108u8, 111u8, 99u8, 107u8, 84u8, 114u8, 97u8, 110u8, 115u8, 97u8, 99u8, 116u8, 105u8, 111u8, 110u8, 67u8, 111u8, 117u8, 110u8, 116u8]
}

/// The bytes of `starknet_getClass`.
pub open spec fn spec_route_name_10() -> Seq<u8> {
    seq![115u8, 116u8, 97u8, 114u8, 107u8, 110u8, 101u8, 116u8, 95u8, 103u8, 101u8, 116u8, 67u8, 108u8, 97u8, 115u8, 115u8]
}

/// The bytes of `starknet_getClassAt`.
pub open spec fn spec_route_name_11() -> Seq<u8> {
    seq![115u8, 116u8, 97u8, 114u8, 107u8, 110u8, 101u8, 116u8, 95u8, 103u8, 101u8, 116u8, 67u8, 108u8, 97u8, 115u8, 115u8, 65u8, 116u8]
}

/// The bytes of `starknet_getClassHashAt`.
pub open spec fn spec_route_name_12() -> Seq<u8> {
    seq![115u8, 116u8, 97u8, 114u8, 107u8, 110u8, 101u8, 116u8, 95u8, 103u8, 101u8, 116u8, 67u8, 108u8, 97u8, 115u8, 115u8, 72u8, 97u8, 115u8, 104u8, 65u8, 116u8]
}

/// The bytes of `starknet_getNonce`.
pub open spec fn spec_route_name_13() -> Seq<u8> {
    seq![115u8, 116u8, 97u8, 114u8, 107u8, 110u8, 101u8, 116u8, 95u8, 103u8, 101u8, 116u8, 78u8, 111u8, 110u8, 99u8, 101u8]
}

/// The bytes of `starknet_getStorageAt`.
pub open spec fn spec_route_name_14() -> Seq<u8> {
    seq![115u8, 116u8, 97u8, 114u8, 107u8, 110u8, 101u8, 116u8, 95u8, 103u8, 101u8, 116u8, 83u8, 116u8, 111u8, 114u8, 97u8, 103u8, 101u8, 65u8, 116u8]
}

/// The bytes of `starknet_getTransactionByBlockIdAndIndex`.
pub open spec fn spec_route_name_15() -> Seq<u8> {
    seq![115u8, 116u8, 97u8, 114u8, 107u8, 110u8, 101u8, 116u8, 95u8, 103u8, 101u8, 116u8, 84u8, 114u8, 97u8, 110u8, 115u8, 97u8, 99u8, 116u8, 105u8, 111u8, 110u8, 66u8, 121u8, 66u8, 108u8, 111u8, 99u8, 107u8, 73u8, 100u8, 65u8, 110u8, 100u8, 73u8, 110u8, 100u8, 101u8, 120u8]
}

/// The bytes of `starknet_getTransactionByHash`.
pub open spec fn spec_route_name_16() -> Seq<u8> {
    seq![115u8, 116u8, 97u8, 114u8, 107u8, 110u8, 101u8, 116u8, 95u8, 103u8, 101u8, 116u8, 84u8, 114u8, 97u8, 110u8, 115u8, 97u8, 99u8, 116u8, 105u8, 111u8, 110u8, 66u8, 121u8, 72u8, 97u8, 115u8, 104u8]
}

/// The bytes of `starknet_getTransactionReceipt`.
pub open spec fn spec_route_name_17() -> Seq<u8> {
    seq![115u8, 116u8, 97u8, 114u8, 107u8, 110u8, 101u8, 116u8, 95u8, 103u8, 101u8, 116u8, 84u8, 114u8, 97u8, 110u8, 115u8, 97u8, 99u8, 116u8, 105u8, 111u8, 110u8, 82u8, 101u8, 99u8, 101u8, 105u8, 112u8, 116u8]
}

/// The bytes of `starknet_pendingTransactions`.
pub open spec fn spec_route_name_18() -> Seq<u8> {
    seq![115u8, 116u8, 97u8, 114u8, 107u8, 110u8, 101u8, 116u8, 95u8, 112u8, 101u8, 110u8, 100u8, 105u8, 110u8, 103u8, 84u8, 114u8, 97u8, 110u8, 115u8, 97u8, 99u8, 116u8, 105u8, 111u8, 110u8, 115u8]
}

/// The bytes of `starknet_syncing`.
pub open spec fn spec_route_name_19() -> Seq<u8> {
    seq![115u8, 116u8, 97u8, 114u8, 107u8, 110u8, 101u8, 116u8, 95u8, 115u8, 121u8, 110u8, 99u8, 105u8, 110u8, 103u8]
}

/// The bytes of `starknet_estimateFee`.
pub open spec fn spec_route_name_20() -> Seq<u8> {
    seq![115u8, 116u8, 97u8, 114u8, 107u8, 110u8, 101u8, 116u8, 95u8, 101u8, 115u8, 116u8, 105u8, 109u8, 97u8, 116u8, 101u8, 70u8, 101u8, 101u8]
}

/// The bytes of `starknet_getEvents`.
pub open spec fn spec_route_name_21() -> Seq<u8> {
    seq![115u8, 116u8, 97u8, 114u8, 107u8, 110u8, 101u8, 116u8, 95u8, 103u8, 101u8, 116u8, 69u8, 118u8, 101u8, 110u8, 116u8, 115u8]
}

/// The bytes of `starknet_getStateUpdate`.
pub open spec fn spec_route_name_22() -> Seq<u8> {
    seq![115u8, 116u8, 97u8, 114u8, 107u8, 110u8, 101u8, 116u8, 95u8, 103u8, 101u8, 116u8, 83u8, 116u8, 97u8, 116u8, 101u8, 85u8, 112u8, 100u8, 97u8, 116u8, 101u8]
}

/// The bytes of `starknet_simulateTransaction`.
pub open spec fn spec_route_name_23() -> Seq<u8> {
    seq![115u8, 116u8, 97u8, 114u8, 107u8, 110u8, 101u8, 116u8, 95u8, 115u8, 105u8, 109u8, 117u8, 108u8, 97u8, 116u8, 101u8, 84u8, 114u8, 97u8, 110u8, 115u8, 97u8, 99u8, 116u8, 105u8, 111u8, 110u8]
}

/// The bytes of `starknet_estimateMessageFee`.
pub open spec fn spec_route_name_24() -> Seq<u8> {
    seq![115u8, 116u8, 97u8, 114u8, 107u8, 110u8, 101u8, 116u8, 95u8, 101u8, 115u8, 116u8, 105u8, 109u8, 97u8, 116u8, 101u8, 77u8, 101u8, 115u8, 115u8, 97u8, 103u8, 101u8, 70u8, 101u8, 101u8]
}

/// The bytes of `pathfinder_getProof`.
pub open spec fn spec_route_name_25() -> Seq<u8> {
    seq![112u8, 97u8, 116u8, 104u8, 102u8, 105u8, 110u8, 100u8, 101u8, 114u8, 95u8, 103u8, 101u8, 116u8, 80u8, 114u8, 111u8, 111u8, 102u8]
}

/// The bytes of `pathfinder_getTransactionStatus`.
pub open spec fn spec_route_name_26() -> Seq<u8> {
    seq![112u8, 97u8, 116u8, 104u8, 102u8, 105u8, 110u8, 100u8, 101u8, 114u8, 95u8, 103u8, 101u8, 116u8, 84u8, 114u8, 97u8, 110u8, 115u8, 97u8, 99u8, 116u8, 105u8, 111u8, 110u8, 83u8, 116u8, 97u8, 116u8, 117u8, 115u8]
}

/// The wire names the `v0.3` server serves, in registration order.
pub open spec fn spec_route_names() -> Seq<Seq<u8>> {
    seq![
        spec_route_name_0(),
        spec_route_name_1(),
        spec_route_name_2(),
        spec_route_name_3(),
        spec_route_name_4(),
        spec_route_name_5(),
        spec_route_name_6(),
        spec_route_name_7(),
        spec_route_name_8(),
        spec_route_name_9(),
        spec_route_name_10(),
        spec_route_name_11(),
        spec_route_name_12(),
        spec_route_name_13(),
        spec_route_name_14(),
        spec_route_name_15(),
        spec_route_name_16(),
        spec_route_name_17(),
        spec_route_name_18(),
        spec_route_name_19(),
        spec_route_name_20(),
        spec_route_name_21(),
        spec_route_name_22(),
        spec_route_name_23(),
        spec_route_name_24(),
        spec_route_name_25(),
        spec_route_name_26(),
    ]
}


/// The bytes of the route name at position 0.
fn route_name_0() -> (r: Vec<u8>)
    ensures
        r@ == spec_route_name_0(),
{
    let mut r: Vec<u8> = Vec::new();
    r.push(115u8);
    r.push(116u8);
    r.push(97u8);
    r.push(114u8);
    r.push(107u8);
    r.push(110u8);
    r.push(101u8);
    r.push(116u8);
    r.push(95u8);
    r.push(97u8);
    r.push(100u8);
    r.push(100u8);
    r.push(68u8);
    r.push(101u8);
    r.push(99u8);
    r.push(108u8);
    r.push(97u8);
    r.push(114u8);
    r.push(101u8);
    r.push(84u8);
    r.push(114u8);
    r.push(97u8);
    r.push(110u8);
    r.push(115u8);
    r.push(97u8);
    r.push(99u8);
    r.push(116u8);
    r.push(105u8);
    r.push(111u8);
    r.push(110u8);
    proof {
        assert(r@ =~= spec_route_name_0());
    }
    r
}

/// The bytes of the route name at position 1.
fn route_name_1() -> (r: Vec<u8>)
    ensures
        r@ == spec_route_name_1(),
{
    let mut r: Vec<u8> = Vec::new();
    r.push(115u8);
    r.push(116u8);
    r.push(97u8);
    r.push(114u8);
    r.push(107u8);
    r.push(110u8);
    r.push(101u8);
    r.push(116u8);
    r.push(95u8);
    r.push(97u8);
    r.push(100u8);
    r.push(100u8);
    r.push(68u8);
    r.push(101u8);
    r.push(112u8);
    r.push(108u8);
    r.push(111u8);
    r.push(121u8);
    r.push(65u8);
    r.push(99u8);
    r.push(99u8);
    r.push(111u8);
    r.push(117u8);
    r.push(110u8);
    r.push(116u8);
    r.push(84u8);
    r.push(114u8);
    r.push(97u8);
    r.push(110u8);
    r.push(115u8);
    r.push(97u8);
    r.push(99u8);
    r.push(116u8);
    r.push(105u8);
    r.push(111u8);
    r.push(110u8);
    proof {
        assert(r@ =~= spec_route_name_1());
    }
    r
}

/// The bytes of the route name at position 2.
fn route_name_2() -> (r: Vec<u8>)
    ensures
        r@ == spec_route_name_2(),
{
    let mut r: Vec<u8> = Vec::new();
    r.push(115u8);
    r.push(116u8);
    r.push(97u8);
    r.push(114u8);
    r.push(107u8);
    r.push(110u8);
    r.push(101u8);
    r.push(116u8);
    r.push(95u8);
    r.push(97u8);
    r.push(100u8);
    r.push(100u8);
    r.push(73u8);
    r.push(110u8);
    r.push(118u8);
    r.push(111u8);
    r.push(107u8);
    r.push(101u8);
    r.push(84u8);
    r.push(114u8);
    r.push(97u8);
    r.push(110u8);
    r.push(115u8);
    r.push(97u8);
    r.push(99u8);
    r.push(116u8);
    r.push(105u8);
    r.push(111u8);
    r.push(110u8);
    proof {
        assert(r@ =~= spec_route_name_2());
    }
    r
}

/// The bytes of the route name at position 3.
fn route_name_3() -> (r: Vec<u8>)
    ensures
        r@ == spec_route_name_3(),
{
    let mut r: Vec<u8> = Vec::new();
    r.push(115u8);
    r.push(116u8);
    r.push(97u8);
    r.push(114u8);
    r.push(107u8);
    r.push(110u8);
    r.push(101u8);
    r.push(116u8);
    r.push(95u8);
    r.push(98u8);
    r.push(108u8);
    r.push(111u8);
    r.push(99u8);
    r.push(107u8);
    r.push(72u8);
    r.push(97u8);
    r.push(115u8);
    r.push(104u8);
    r.push(65u8);
    r.push(110u8);
    r.push(100u8);
    r.push(78u8);
    r.push(117u8);
    r.push(109u8);
    r.push(98u8);
    r.push(101u8);
    r.push(114u8);
    proof {
        assert(r@ =~= spec_route_name_3());
    }
    r
}

/// The bytes of the route name at position 4.
fn route_name_4() -> (r: Vec<u8>)
    ensures
        r@ == spec_route_name_4(),
{
    let mut r: Vec<u8> = Vec::new();
    r.push(115u8);
    r.push(116u8);
    r.push(97u8);
    r.push(114u8);
    r.push(107u8);
    r.push(110u8);
    r.push(101u8);
    r.push(116u8);
    r.push(95u8);
    r.push(98u8);
    r.push(108u8);
    r.push(111u8);
    r.push(99u8);
    r.push(107u8);
    r.push(78u8);
    r.push(117u8);
    r.push(109u8);
    r.push(98u8);
    r.push(101u8);
    r.push(114u8);
    proof {
        assert(r@ =~= spec_route_name_4());
    }
    r
}

/// The bytes of the route name at position 5.
fn route_name_5() -> (r: Vec<u8>)
    ensures
        r@ == spec_route_name_5(),
{
    let mut r: Vec<u8> = Vec::new();
    r.push(115u8);
    r.push(116u8);
    r.push(97u8);
    r.push(114u8);
    r.push(107u8);
    r.push(110u8);
    r.push(101u8);
    r.push(116u8);
    r.push(95u8);
    r.push(99u8);
    r.push(97u8);
    r.push(108u8);
    r.push(108u8);
    proof {
        assert(r@ =~= spec_route_name_5());
    }
    r
}

/// The bytes of the route name at position 6.
fn route_name_6() -> (r: Vec<u8>)
    ensures
        r@ == spec_route_name_6(),
{
    let mut r: Vec<u8> = Vec::new();
    r.push(115u8);
    r.push(116u8);
    r.push(97u8);
    r.push(114u8);
    r.push(107u8);
    r.push(110u8);
    r.push(101u8);
    r.push(116u8);
    r.push(95u8);
    r.push(99u8);
    r.push(104u8);
    r.push(97u8);
    r.push(105u8);
    r.push(110u8);
    r.push(73u8);
    r.push(100u8);
    proof {
        assert(r@ =~= spec_route_name_6());
    }
    r
}

/// The bytes of the route name at position 7.
fn route_name_7() -> (r: Vec<u8>)
    ensures
        r@ == spec_route_name_7(),
{
    let mut r: Vec<u8> = Vec::new();
    r.push(115u8);
    r.push(116u8);
    r.push(97u8);
    r.push(114u8);
    r.push(107u8);
    r.push(110u8);
    r.push(101u8);
    r.push(116u8);
    r.push(95u8);
    r.push(103u8);
    r.push(101u8);
    r.push(116u8);
    r.push(66u8);
    r.push(108u8);
    r.push(111u8);
    r.push(99u8);
    r.push(107u8);
    r.push(87u8);
    r.push(105u8);
    r.push(116u8);
    r.push(104u8);
    r.push(84u8);
    r.push(120u8);
    r.push(72u8);
    r.push(97u8);
    r.push(115u8);
    r.push(104u8);
    r.push(101u8);
    r.push(115u8);
    proof {
        assert(r@ =~= spec_route_name_7());
    }
    r
}

/// The bytes of the route name at position 8.
fn route_name_8() -> (r: Vec<u8>)
    ensures
        r@ == spec_route_name_8(),
{
    let mut r: Vec<u8> = Vec::new();
    r.push(115u8);
    r.push(116u8);
    r.push(97u8);
    r.push(114u8);
    r.push(107u8);
    r.push(110u8);
    r.push(101u8);
    r.push(116u8);
    r.push(95u8);
    r.push(103u8);
    r.push(101u8);
    r.push(116u8);
    r.push(66u8);
    r.push(108u8);
    r.push(111u8);
    r.push(99u8);
    r.push(107u8);
    r.push(87u8);
    r.push(105u8);
    r.push(116u8);
    r.push(104u8);
    r.push(84u8);
    r.push(120u8);
    r.push(115u8);
    proof {
        assert(r@ =~= spec_route_name_8());
    }
    r
}

/// The bytes of the route name at position 9.
fn route_name_9() -> (r: Vec<u8>)
    ensures
        r@ == spec_route_name_9(),
{
    let mut r: Vec<u8> = Vec::new();
    r.push(115u8);
    r.push(116u8);
    r.push(97u8);
    r.push(114u8);
    r.push(107u8);
    r.push(110u8);
    r.push(101u8);
    r.push(116u8);
    r.push(95u8);
    r.push(103u8);
    r.push(101u8);
    r.push(116u8);
    r.push(66u8);
    r.push(108u8);
    r.push(111u8);
    r.push(99u8);
    r.push(107u8);
    r.push(84u8);
    r.push(114u8);
    r.push(97u8);
    r.push(110u8);
    r.push(115u8);
    r.push(97u8);
    r.push(99u8);
    r.push(116u8);
    r.push(105u8);
    r.push(111u8);
    r.push(110u8);
    r.push(67u8);
    r.push(111u8);
    r.push(117u8);
    r.push(110u8);
    r.push(116u8);
    proof {
        assert(r@ =~= spec_route_name_9());
    }
    r
}

/// The bytes of the route name at position 10.
fn route_name_10() -> (r: Vec<u8>)
    ensures
        r@ == spec_route_name_10(),
{
    let mut r: Vec<u8> = Vec::new();
    r.push(115u8);
    r.push(116u8);
    r.push(97u8);
    r.push(114u8);
    r.push(107u8);
    r.push(110u8);
    r.push(101u8);
    r.push(116u8);
    r.push(95u8);
    r.push(103u8);
    r.push(101u8);
    r.push(116u8);
    r.push(67u8);
    r.push(108u8);
    r.push(97u8);
    r.push(115u8);
    r.push(115u8);
    proof {
        assert(r@ =~= spec_route_name_10());
    }
    r
}

/// The bytes of the route name at position 11.
fn route_name_11() -> (r: Vec<u8>)
    ensures
        r@ == spec_route_name_11(),
{
    let mut r: Vec<u8> = Vec::new();
    r.push(115u8);
    r.push(116u8);
    r.push(97u8);
    r.push(114u8);
    r.push(107u8);
    r.push(110u8);
    r.push(101u8);
    r.push(116u8);
    r.push(95u8);
    r.push(103u8);
    r.push(101u8);
    r.push(116u8);
    r.push(67u8);
    r.push(108u8);
    r.push(97u8);
    r.push(115u8);
    r.push(115u8);
    r.push(65u8);
    r.push(116u8);
    proof {
        assert(r@ =~= spec_route_name_11());
    }
    r
}

/// The bytes of the route name at position 12.
fn route_name_12() -> (r: Vec<u8>)
    ensures
        r@ == spec_route_name_12(),
{
    let mut r: Vec<u8> = Vec::new();
    r.push(115u8);
    r.push(116u8);
    r.push(97u8);
    r.push(114u8);
    r.push(107u8);
    r.push(110u8);
    r.push(101u8);
    r.push(116u8);
    r.push(95u8);
    r.push(103u8);
    r.push(101u8);
    r.push(116u8);
    r.push(67u8);
    r.push(108u8);
    r.push(97u8);
    r.push(115u8);
    r.push(115u8);
    r.push(72u8);
    r.push(97u8);
    r.push(115u8);
    r.push(104u8);
    r.push(65u8);
    r.push(116u8);
    proof {
        assert(r@ =~= spec_route_name_12());
    }
    r
}

/// The bytes of the route name at position 13.
fn route_name_13() -> (r: Vec<u8>)
    ensures
        r@ == spec_route_name_13(),
{
    let mut r: Vec<u8> = Vec::new();
    r.push(115u8);
    r.push(116u8);
    r.push(97u8);
    r.push(114u8);
    r.push(107u8);
    r.push(110u8);
    r.push(101u8);
    r.push(116u8);
    r.push(95u8);
    r.push(103u8);
    r.push(101u8);
    r.push(116u8);
    r.push(78u8);
    r.push(111u8);
    r.push(110u8);
    r.push(99u8);
    r.push(101u8);
    proof {
        assert(r@ =~= spec_route_name_13());
    }
    r
}

/// The bytes of the route name at position 14.
fn route_name_14() -> (r: Vec<u8>)
    ensures
        r@ == spec_route_name_14(),
{
    let mut r: Vec<u8> = Vec::new();
    r.push(115u8);
    r.push(116u8);
    r.push(97u8);
    r.push(114u8);
    r.push(107u8);
    r.push(110u8);
    r.push(101u8);
    r.push(116u8);
    r.push(95u8);
    r.push(103u8);
    r.push(101u8);
    r.push(116u8);
    r.push(83u8);
    r.push(116u8);
    r.push(111u8);
    r.push(114u8);
    r.push(97u8);
    r.push(103u8);
    r.push(101u8);
    r.push(65u8);
    r.push(116u8);
    proof {
        assert(r@ =~= spec_route_name_14());
    }
    r
}

/// The bytes of the route name at position 15.
fn route_name_15() -> (r: Vec<u8>)
    ensures
        r@ == spec_route_name_15(),
{
    let mut r: Vec<u8> = Vec::new();
    r.push(115u8);
    r.push(116u8);
    r.push(97u8);
    r.push(114u8);
    r.push(107u8);
    r.push(110u8);
    r.push(101u8);
    r.push(116u8);
    r.push(95u8);
    r.push(103u8);
    r.push(101u8);
    r.push(116u8);
    r.push(84u8);
    r.push(114u8);
    r.push(97u8);
    r.push(110u8);
    r.push(115u8);
    r.push(97u8);
    r.push(99u8);
    r.push(116u8);
    r.push(105u8);
    r.push(111u8);
    r.push(110u8);
    r.push(66u8);
    r.push(121u8);
    r.push(66u8);
    r.push(108u8);
    r.push(111u8);
    r.push(99u8);
    r.push(107u8);
    r.push(73u8);
    r.push(100u8);
    r.push(65u8);
    r.push(110u8);
    r.push(100u8);
    r.push(73u8);
    r.push(110u8);
    r.push(100u8);
    r.push(101u8);
    r.push(120u8);
    proof {
        assert(r@ =~= spec_route_name_15());
    }
    r
}

/// The bytes of the route name at position 16.
fn route_name_16() -> (r: Vec<u8>)
    ensures
        r@ == spec_route_name_16(),
{
    let mut r: Vec<u8> = Vec::new();
    r.push(115u8);
    r.push(116u8);
    r.push(97u8);
    r.push(114u8);
    r.push(107u8);
    r.push(110u8);
    r.push(101u8);
    r.push(116u8);
    r.push(95u8);
    r.push(103u8);
    r.push(101u8);
    r.push(116u8);
    r.push(84u8);
    r.push(114u8);
    r.push(97u8);
    r.push(110u8);
    r.push(115u8);
    r.push(97u8);
    r.push(99u8);
    r.push(116u8);
    r.push(105u8);
    r.push(111u8);
    r.push(110u8);
    r.push(66u8);
    r.push(121u8);
    r.push(72u8);
    r.push(97u8);
    r.push(115u8);
    r.push(104u8);
    proof {
        assert(r@ =~= spec_route_name_16());
    }
    r
}

/// The bytes of the route name at position 17.
fn route_name_17() -> (r: Vec<u8>)
    ensures
        r@ == spec_route_name_17(),
{
    let mut r: Vec<u8> = Vec::new();
    r.push(115u8);
    r.push(116u8);
    r.push(97u8);
    r.push(114u8);
    r.push(107u8);
    r.push(110u8);
    r.push(101u8);
    r.push(116u8);
    r.push(95u8);
    r.push(103u8);
    r.push(101u8);
    r.push(116u8);
    r.push(84u8);
    r.push(114u8);
    r.push(97u8);
    r.push(110u8);
    r.push(115u8);
    r.push(97u8);
    r.push(99u8);
    r.push(116u8);
    r.push(105u8);
    r.push(111u8);
    r.push(110u8);
    r.push(82u8);
    r.push(101u8);
    r.push(99u8);
    r.push(101u8);
    r.push(105u8);
    r.push(112u8);
    r.push(116u8);
    proof {
        assert(r@ =~= spec_route_name_17());
    }
    r
}

/// The bytes of the route name at position 18.
fn route_name_18() -> (r: Vec<u8>)
    ensures
        r@ == spec_route_name_18(),
{
    let mut r: Vec<u8> = Vec::new();
    r.push(115u8);
    r.push(116u8);
    r.push(97u8);
    r.push(114u8);
    r.push(107u8);
    r.push(110u8);
    r.push(101u8);
    r.push(116u8);
    r.push(95u8);
    r.push(112u8);
    r.push(101u8);
    r.push(110u8);
    r.push(100u8);
    r.push(105u8);
    r.push(110u8);
    r.push(103u8);
    r.push(84u8);
    r.push(114u8);
    r.push(97u8);
    r.push(110u8);
    r.push(115u8);
    r.push(97u8);
    r.push(99u8);
    r.push(116u8);
    r.push(105u8);
    r.push(111u8);
    r.push(110u8);
    r.push(115u8);
    proof {
        assert(r@ =~= spec_route_name_18());
    }
    r
}

/// The bytes of the route name at position 19.
fn route_name_19() -> (r: Vec<u8>)
    ensures
        r@ == spec_route_name_19(),
{
    let mut r: Vec<u8> = Vec::new();
    r.push(115u8);
    r.push(116u8);
    r.push(97u8);
    r.push(114u8);
    r.push(107u8);
    r.push(110u8);
    r.push(101u8);
    r.push(116u8);
    r.push(95u8);
    r.push(115u8);
    r.push(121u8);
    r.push(110u8);
    r.push(99u8);
    r.push(105u8);
    r.push(110u8);
    r.push(103u8);
    proof {
        assert(r@ =~= spec_route_name_19());
    }
    r
}

/// The bytes of the route name at position 20.
fn route_name_20() -> (r: Vec<u8>)
    ensures
        r@ == spec_route_name_20(),
{
    let mut r: Vec<u8> = Vec::new();
    r.push(115u8);
    r.push(116u8);
    r.push(97u8);
    r.push(114u8);
    r.push(107u8);
    r.push(110u8);
    r.push(101u8);
    r.push(116u8);
    r.push(95u8);
    r.push(101u8);
    r.push(115u8);
    r.push(116u8);
    r.push(105u8);
    r.push(109u8);
    r.push(97u8);
    r.push(116u8);
    r.push(101u8);
    r.push(70u8);
    r.push(101u8);
    r.push(101u8);
    proof {
        assert(r@ =~= spec_route_name_20());
    }
    r
}

/// The bytes of the route name at position 21.
fn route_name_21() -> (r: Vec<u8>)
    ensures
        r@ == spec_route_name_21(),
{
    let mut r: Vec<u8> = Vec::new();
    r.push(115u8);
    r.push(116u8);
    r.push(97u8);
    r.push(114u8);
    r.push(107u8);
    r.push(110u8);
    r.push(101u8);
    r.push(116u8);
    r.push(95u8);
    r.push(103u8);
    r.push(101u8);
    r.push(116u8);
    r.push(69u8);
    r.push(118u8);
    r.push(101u8);
    r.push(110u8);
    r.push(116u8);
    r.push(115u8);
    proof {
        assert(r@ =~= spec_route_name_21());
    }
    r
}

/// The bytes of the route name at position 22.
fn route_name_22() -> (r: Vec<u8>)
    ensures
        r@ == spec_route_name_22(),
{
    let mut r: Vec<u8> = Vec::new();
    r.push(115u8);
    r.push(116u8);
    r.push(97u8);
    r.push(114u8);
    r.push(107u8);
    r.push(110u8);
    r.push(101u8);
    r.push(116u8);
    r.push(95u8);
    r.push(103u8);
    r.push(101u8);
    r.push(116u8);
    r.push(83u8);
    r.push(116u8);
    r.push(97u8);
    r.push(116u8);
    r.push(101u8);
    r.push(85u8);
    r.push(112u8);
    r.push(100u8);
    r.push(97u8);
    r.push(116u8);
    r.push(101u8);
    proof {
        assert(r@ =~= spec_route_name_22());
    }
    r
}

/// The bytes of the route name at position 23.
fn route_name_23() -> (r: Vec<u8>)
    ensures
        r@ == spec_route_name_23(),
{
    let mut r: Vec<u8> = Vec::new();
    r.push(115u8);
    r.push(116u8);
    r.push(97u8);
    r.push(114u8);
    r.push(107u8);
    r.push(110u8);
    r.push(101u8);
    r.push(116u8);
    r.push(95u8);
    r.push(115u8);
    r.push(105u8);
    r.push(109u8);
    r.push(117u8);
    r.push(108u8);
    r.push(97u8);
    r.push(116u8);
    r.push(101u8);
    r.push(84u8);
    r.push(114u8);
    r.push(97u8);
    r.push(110u8);
    r.push(115u8);
    r.push(97u8);
    r.push(99u8);
    r.push(116u8);
    r.push(105u8);
    r.push(111u8);
    r.push(110u8);
    proof {
        assert(r@ =~= spec_route_name_23());
    }
    r
}

/// The bytes of the route name at position 24.
fn route_name_24() -> (r: Vec<u8>)
    ensures
        r@ == spec_route_name_24(),
{
    let mut r: Vec<u8> = Vec::new();
    r.push(115u8);
    r.push(116u8);
    r.push(97u8);
    r.push(114u8);
    r.push(107u8);
    r.push(110u8);
    r.push(101u8);
    r.push(116u8);
    r.push(95u8);
    r.push(101u8);
    r.push(115u8);
    r.push(116u8);
    r.push(105u8);
    r.push(109u8);
    r.push(97u8);
    r.push(116u8);
    r.push(101u8);
    r.push(77u8);
    r.push(101u8);
    r.push(115u8);
    r.push(115u8);
    r.push(97u8);
    r.push(103u8);
    r.push(101u8);
    r.push(70u8);
    r.push(101u8);
    r.push(101u8);
    proof {
        assert(r@ =~= spec_route_name_24());
    }
    r
}

/// The bytes of the route name at position 25.
fn route_name_25() -> (r: Vec<u8>)
    ensures
        r@ == spec_route_name_25(),
{
    let mut r: Vec<u8> = Vec::new();
    r.push(112u8);
    r.push(97u8);
    r.push(116u8);
    r.push(104u8);
    r.push(102u8);
    r.push(105u8);
    r.push(110u8);
    r.push(100u8);
    r.push(101u8);
    r.push(114u8);
    r.push(95u8);
    r.push(103u8);
    r.push(101u8);
    r.push(116u8);
    r.push(80u8);
    r.push(114u8);
    r.push(111u8);
    r.push(111u8);
    r.push(102u8);
    proof {
        assert(r@ =~= spec_route_name_25());
    }
    r
}

/// The bytes of the route name at position 26.
fn route_name_26() -> (r: Vec<u8>)
    ensures
        r@ == spec_route_name_26(),
{
    let mut r: Vec<u8> = Vec::new();
    r.push(112u8);
    r.push(97u8);
    r.push(116u8);
    r.push(104u8);
    r.push(102u8);
    r.push(105u8);
    r.push(110u8);
    r.push(100u8);
    r.push(101u8);
    r.push(114u8);
    r.push(95u8);
    r.push(103u8);
    r.push(101u8);
    r.push(116u8);
    r.push(84u8);
    r.push(114u8);
    r.push(97u8);
    r.push(110u8);
    r.push(115u8);
    r.push(97u8);
    r.push(99u8);
    r.push(116u8);
    r.push(105u8);
    r.push(111u8);
    r.push(110u8);
    r.push(83u8);
    r.push(116u8);
    r.push(97u8);
    r.push(116u8);
    r.push(117u8);
    r.push(115u8);
    proof {
        assert(r@ =~= spec_route_name_26());
    }
    r
}

/// The wire names the `v0.3` server serves, in registration order.
pub fn route_names() -> (r: Vec<Vec<u8>>)
    ensures
        r@.len() == spec_route_names().len(),
        forall|i: int| 0 <= i < r@.len() ==> #[trigger] r@[i]@ == spec_route_names()[i],
{
    let mut names: Vec<Vec<u8>> = Vec::new();
    names.push(route_name_0());
    names.push(route_name_1());
    names.push(route_name_2());
    names.push(route_name_3());
    names.push(route_name_4());
    names.push(route_name_5());
    names.push(route_name_6());
    names.push(route_name_7());
    names.push(route_name_8());
    names.push(route_name_9());
    names.push(route_name_10());
    names.push(route_name_11());
    names.push(route_name_12());
    names.push(route_name_13());
    names.push(route_name_14());
    names.push(route_name_15());
    names.push(route_name_16());
    names.push(route_name_17());
    names.push(route_name_18());
    names.push(route_name_19());
    names.push(route_name_20());
    names.push(route_name_21());
    names.push(route_name_22());
    names.push(route_name_23());
    names.push(route_name_24());
    names.push(route_name_25());
    names.push(route_name_26());
    names
}

/// Builds the `v0.3` route table: each documented name bound to the
/// handler the caller supplies at the same position.
pub fn register_routes<M>(handlers: Vec<M>) -> (r: RpcRouterBuilder<M>)
    requires
        handlers@.len() == spec_route_names().len(),
    ensures
        r.version@ == crate::tokens::spec_tok_ver_v03(),
        r.methods@.len() == spec_route_names().len(),
        forall|i: int| 0 <= i < r.methods@.len() ==> #[trigger] r.methods@[i].0@
            == spec_route_names()[i] && r.methods@[i].1 == handlers@[i],
{
    let ghost all = handlers@;
    let mut handlers = handlers;
    let mut names = route_names();
    let mut builder: RpcRouterBuilder<M> = RpcRouter::<(), M>::builder(
        crate::tokens::tok_ver_v03(),
    );
    let mut i: usize = 0;
    while names.len() > 0
        invariant
            names@.len() == spec_route_names().len() - i,
            handlers@.len() == spec_route_names().len() - i,
            all.len() == spec_route_names().len(),
            i <= spec_route_names().len(),
            forall|j: int| 0 <= j < names@.len() ==> #[trigger] names@[j]@
                == spec_route_names()[i + j],
            forall|j: int| 0 <= j < handlers@.len() ==> #[trigger] handlers@[j] == all[i + j],
            builder.version@ == crate::tokens::spec_tok_ver_v03(),
            builder.methods@.len() == i,
            forall|j: int| 0 <= j < i ==> #[trigger] builder.methods@[j].0@
                == spec_route_names()[j] && builder.methods@[j].1 == all[j],
        decreases names@.len(),
    {
        let name = names.remove(0);
        let handler = handlers.remove(0);
        builder = builder.register(name, handler);
        i = i + 1;
    }
    builder
}

} // verus!
