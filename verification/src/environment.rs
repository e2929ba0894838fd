//! Construction of the launch environment: the fixed state-sync settings
//! merged with the resolved trust anchor, as an immutable list of
//! name/value pairs built once and handed by value to the spawn call.

use vstd::prelude::*;
use crate::numeric::dec_str;
use crate::numeric::u64_to_dec;
use crate::rpc::TrustModel;
use crate::rpc::TrustParams;

verus! {

/// The launch environment as a function of the trust anchor: five fixed
/// names in a fixed order, three constant values, and the two
/// trust-derived values reflecting the anchor.
pub open spec fn env_model(trust: TrustModel) -> Seq<(Seq<char>, Seq<char>)> {
    seq![
        ("QUICKSILVERD_STATESYNC_ENABLE"@, "true"@),
        ("QUICKSILVERD_P2P_MAX_NUM_OUTBOUND_PEERS"@, "200"@),
        (
            "QUICKSILVERD_STATESYNC_RPC_SERVERS"@,
            "https://quicksilver-rpc.polkachu.com:443,https://quicksilver-rpc.polkachu.com:443"@,
        ),
        ("QUICKSILVERD_STATESYNC_TRUST_HEIGHT"@, dec_str(trust.height as nat)),
        ("QUICKSILVERD_STATESYNC_TRUST_HASH"@, trust.hash),
    ]
}

/// The name/value pairs a built environment denotes.
pub open spec fn entries_view(v: Seq<(String, String)>) -> Seq<(Seq<char>, Seq<char>)> {
    v.map(|i: int, e: (String, String)| (e.0@, e.1@))
}

/// Build the environment the daemon is launched with. Pure: the result is
/// fully determined by the trust anchor.
pub fn build_environment(trust: &TrustParams) -> (r: Vec<(String, String)>)
    ensures
        entries_view(r@) == env_model(trust@),
{
    let mut r: Vec<(String, String)> = Vec::new();
    r.push(("QUICKSILVERD_STATESYNC_ENABLE".to_owned(), "true".to_owned()));
    r.push(("QUICKSILVERD_P2P_MAX_NUM_OUTBOUND_PEERS".to_owned(), "200".to_owned()));
    r.push((
        "QUICKSILVERD_STATESYNC_RPC_SERVERS".to_owned(),
        "https://quicksilver-rpc.polkachu.com:443,https://quicksilver-rpc.polkachu.com:443".to_owned(),
    ));
    r.push(("QUICKSILVERD_STATESYNC_TRUST_HEIGHT".to_owned(), u64_to_dec(trust.height)));
    r.push(("QUICKSILVERD_STATESYNC_TRUST_HASH".to_owned(), trust.hash.clone()));
    proof {
        assert(entries_view(r@) =~= env_model(trust@));
    }
    r
}

/// The environment always holds exactly the five fixed names, pairwise
/// distinct, with the trust height rendered in decimal and the trust hash
/// carried verbatim.
pub proof fn lemma_environment_shape(trust: TrustModel)
    ensures
        env_model(trust).len() == 5,
        env_model(trust)[0] == ("QUICKSILVERD_STATESYNC_ENABLE"@, "true"@),
        env_model(trust)[1] == ("QUICKSILVERD_P2P_MAX_NUM_OUTBOUND_PEERS"@, "200"@),
        env_model(trust)[2].0 == "QUICKSILVERD_STATESYNC_RPC_SERVERS"@,
        env_model(trust)[3] == ("QUICKSILVERD_STATESYNC_TRUST_HEIGHT"@, dec_str(
            trust.height as nat,
        )),
        env_model(trust)[4] == ("QUICKSILVERD_STATESYNC_TRUST_HASH"@, trust.hash),
        forall|i: int, j: int|
            0 <= i < j < env_model(trust).len() ==> env_model(trust)[i].0 != env_model(
                trust,
            )[j].0,
{
    reveal_strlit("QUICKSILVERD_STATESYNC_ENABLE");
    reveal_strlit("QUICKSILVERD_P2P_MAX_NUM_OUTBOUND_PEERS");
    reveal_strlit("QUICKSILVERD_STATESYNC_RPC_SERVERS");
    reveal_strlit("QUICKSILVERD_STATESYNC_TRUST_HEIGHT");
    reveal_strlit("QUICKSILVERD_STATESYNC_TRUST_HASH");
    assert(("QUICKSILVERD_STATESYNC_ENABLE"@).len() == 29);
    assert(("QUICKSILVERD_P2P_MAX_NUM_OUTBOUND_PEERS"@).len() == 39);
    assert(("QUICKSILVERD_STATESYNC_RPC_SERVERS"@).len() == 34);
    assert(("QUICKSILVERD_STATESYNC_TRUST_HEIGHT"@).len() == 35);
    assert(("QUICKSILVERD_STATESYNC_TRUST_HASH"@).len() == 33);
}

} // verus!
