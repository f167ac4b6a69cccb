//! The configuration records of the wallet.

use vstd::prelude::*;
use crate::text::{decimal_text, join2, join3, u64_to_string};

verus! {

/// Directory of the wallet data below the data directory.
pub const GRIN_WALLET_DIR: &'static str = "wallet_data";

/// Port of the owner API where the configuration names none.
pub const DEFAULT_OWNER_API_LISTEN_PORT: u16 = 3420;

/// Settings of the logger, as the logging crate takes them.
#[verifier::external_type_specification]
#[verifier::external_body]
pub struct ExLoggingConfig(grin_util::logger::LoggingConfig);

/// Path in the file system.
#[verifier::external_type_specification]
#[verifier::external_body]
pub struct ExPathBuf(std::path::PathBuf);

/// Kind of chain that the wallet works on.
#[derive(Clone, Copy, Debug, PartialEq, Eq, Structural)]
pub enum ChainTypes {
    /// For automated tests.
    AutomatedTesting,
    /// For tests by hand.
    UserTesting,
    /// Public test network.
    Floonet,
    /// Main network.
    Mainnet,
}

/// Configuration of the wallet as given on the command line or in its file.
#[derive(Clone, Debug, PartialEq)]
pub struct WalletConfig {
    /// Chain parameters.
    pub chain_type: Option<ChainTypes>,
    /// The interface on which the API server of the wallet listens.
    pub api_listen_interface: String,
    /// The port on which the wallet listens.
    pub api_listen_port: u16,
    /// The port on which the owner API listens.
    pub owner_api_listen_port: Option<u16>,
    /// Where the secret of the owner API is kept.
    pub api_secret_path: Option<String>,
    /// Where the secret of the node API is kept.
    pub node_api_secret_path: Option<String>,
    /// The address of the node against which inputs are checked.
    pub check_node_api_http_addr: String,
    /// Whether the owner API serves the foreign API too.
    pub owner_api_include_foreign: Option<bool>,
    /// Whether the owner API runs the message queue listener.
    pub owner_api_include_mqs_listener: Option<bool>,
    /// Index from which the message queue address is derived.
    pub grinbox_address_index: Option<u32>,
    /// The directory in which the wallet files are stored.
    pub data_file_dir: String,
    /// Whether commitments are left out of the output data.
    pub no_commit_cache: Option<bool>,
    /// File of the TLS certificate.
    pub tls_certificate_file: Option<String>,
    /// File of the key of the TLS certificate.
    pub tls_certificate_key: Option<String>,
    /// Whether the output is coloured for a dark background.
    pub dark_background_color_scheme: Option<bool>,
    /// Directory of the wallet data, where it is not the default.
    pub wallet_data_dir: Option<String>,
    /// The nodes of the secondary coins, each under a key made of coin,
    /// network and number.
    pub swap_electrumx_addr: Option<Vec<(String, String)>>,
    /// Address of the swap contract on Ethereum.
    pub eth_swap_addr: Option<String>,
}

/// The nodes of the secondary coins that a new configuration names.
pub open spec fn default_electrumx_addr() -> Seq<(Seq<char>, Seq<char>)> {
    seq![
        ("bch_main_1"@, "bch.main1.swap.mwc.mw:18333"@),
        ("bch_main_2"@, "bch.main2.swap.mwc.mw:18333"@),
        ("bch_test_1"@, "bch.test1.swap.mwc.mw:18335"@),
        ("bch_test_2"@, "bch.test1.swap.mwc.mw:18335"@),
        ("btc_main_1"@, "btc.main1.swap.mwc.mw:18337"@),
        ("btc_main_2"@, "btc.main2.swap.mwc.mw:18337"@),
        ("btc_test_1"@, "btc.test1.swap.mwc.mw:18339"@),
        ("btc_test_2"@, "btc.test2.swap.mwc.mw:18339"@),
        ("dash_main_1"@, "dash.main1.swap.mwc.mw:18351"@),
        ("dash_main_2"@, "dash.main2.swap.mwc.mw:18351"@),
        ("dash_test_1"@, "dash.test1.swap.mwc.mw:18349"@),
        ("dash_test_2"@, "dash.test1.swap.mwc.mw:18349"@),
        ("doge_main_1"@, "doge.main1.swap.mwc.mw:18359"@),
        ("doge_main_2"@, "doge.main2.swap.mwc.mw:18359"@),
        ("doge_test_1"@, "doge.test1.swap.mwc.mw:18357"@),
        ("doge_test_2"@, "doge.test1.swap.mwc.mw:18357"@),
        ("ltc_main_1"@, "ltc.main1.swap.mwc.mw:18343"@),
        ("ltc_main_2"@, "ltc.main2.swap.mwc.mw:18343"@),
        ("ltc_test_1"@, "ltc.test1.swap.mwc.mw:18341"@),
        ("ltc_test_2"@, "ltc.test1.swap.mwc.mw:18341"@),
        ("zcash_main_1"@, "zcash.main1.swap.mwc.mw:18355"@),
        ("zcash_main_2"@, "zcash.main2.swap.mwc.mw:18355"@),
        ("zcash_test_1"@, "zcash.test1.swap.mwc.mw:18353"@),
        ("zcash_test_2"@, "zcash.test1.swap.mwc.mw:18353"@),
    ]
}

/// Whether `a` and `b` agree before the place `k`, where `a` ends or holds
/// the lesser character.
pub open spec fn differs_at(a: Seq<char>, b: Seq<char>, k: int) -> bool {
    &&& 0 <= k <= a.len()
    &&& k < b.len()
    &&& forall|j: int| 0 <= j < k ==> a[j] == b[j]
    &&& (k < a.len() ==> (a[k] as u32) < (b[k] as u32))
}

/// Whether `a` comes strictly before `b` in the dictionary order of
/// characters: the order in which a sorted map walks its text keys.
pub open spec fn text_before(a: Seq<char>, b: Seq<char>) -> bool {
    exists|k: int| #[trigger] differs_at(a, b, k)
}

/// Whether the keys of the nodes come in strictly ascending order, as a
/// sorted map holds them: each key before every later one.
pub open spec fn keys_ascending(nodes: Seq<(Seq<char>, Seq<char>)>) -> bool {
    forall|i: int, j: int|
        0 <= i < j < nodes.len() ==> text_before(#[trigger] nodes[i].0, #[trigger] nodes[j].0)
}

/// Whether no key occurs twice among the nodes.
pub open spec fn keys_distinct(nodes: Seq<(Seq<char>, Seq<char>)>) -> bool {
    forall|i: int, j: int|
        0 <= i < j < nodes.len() ==> #[trigger] nodes[i].0 != #[trigger] nodes[j].0
}

/// The dictionary order of texts is transitive.
pub proof fn lemma_text_before_transitive(a: Seq<char>, b: Seq<char>, c: Seq<char>)
    requires
        text_before(a, b),
        text_before(b, c),
    ensures
        text_before(a, c),
{
    let k1 = choose|k: int| #[trigger] differs_at(a, b, k);
    let k2 = choose|k: int| #[trigger] differs_at(b, c, k);
    if k1 <= k2 {
        assert(differs_at(a, c, k1));
    } else {
        assert(differs_at(a, c, k2));
    }
}

/// Keys of which each comes before the next come each before every later one.
proof fn lemma_steps_ascend(nodes: Seq<(Seq<char>, Seq<char>)>, i: int, j: int)
    requires
        0 <= i < j < nodes.len(),
        forall|k: int| 0 <= k < nodes.len() - 1 ==> text_before(#[trigger] nodes[k].0, nodes[k + 1].0),
    ensures
        text_before(nodes[i].0, nodes[j].0),
    decreases j - i,
{
    if j > i + 1 {
        lemma_steps_ascend(nodes, i, j - 1);
        assert(text_before(nodes[j - 1].0, nodes[j - 1 + 1].0));
        lemma_text_before_transitive(nodes[i].0, nodes[j - 1].0, nodes[j].0);
    } else {
        assert(text_before(nodes[i].0, nodes[i + 1].0));
    }
}

/// Keys in ascending order hold no key twice.
pub proof fn lemma_ascending_keys_are_distinct(nodes: Seq<(Seq<char>, Seq<char>)>)
    requires
        keys_ascending(nodes),
    ensures
        keys_distinct(nodes),
{
    assert forall|i: int, j: int| 0 <= i < j < nodes.len() implies #[trigger] nodes[i].0
        != #[trigger] nodes[j].0 by {
        assert(text_before(nodes[i].0, nodes[j].0));
        let k = choose|k: int| #[trigger] differs_at(nodes[i].0, nodes[j].0, k);
        if nodes[i].0 == nodes[j].0 {
            assert(false);
        }
    }
}

/// The nodes that a new configuration names come under keys in ascending
/// order, none of them twice.
pub proof fn lemma_default_keys_ascend()
    ensures
        keys_ascending(default_electrumx_addr()),
        keys_distinct(default_electrumx_addr()),
{
    let nodes = default_electrumx_addr();
    assert(nodes.len() == 24);
    assert(differs_at(nodes[0].0, nodes[1].0, 9)) by {
        let a = "bch_main_1"@;
        let b = "bch_main_2"@;
        reveal_strlit("bch_main_1");
        reveal_strlit("bch_main_2");
        assert(nodes[0].0 == a);
        assert(nodes[1].0 == b);
        assert forall|j: int| 0 <= j < 9 implies a[j] == b[j] by {
            if j == 0 {
            } else if j == 1 {
            } else if j == 2 {
            } else if j == 3 {
            } else if j == 4 {
            } else if j == 5 {
            } else if j == 6 {
            } else if j == 7 {
            } else if j == 8 {
            }
        }
    }
    assert(differs_at(nodes[1].0, nodes[2].0, 4)) by {
        let a = "bch_main_2"@;
        let b = "bch_test_1"@;
        reveal_strlit("bch_main_2");
        reveal_strlit("bch_test_1");
        assert(nodes[1].0 == a);
        assert(nodes[2].0 == b);
        assert forall|j: int| 0 <= j < 4 implies a[j] == b[j] by {
            if j == 0 {
            } else if j == 1 {
            } else if j == 2 {
            } else if j == 3 {
            }
        }
    }
    assert(differs_at(nodes[2].0, nodes[3].0, 9)) by {
        let a = "bch_test_1"@;
        let b = "bch_test_2"@;
        reveal_strlit("bch_test_1");
        reveal_strlit("bch_test_2");
        assert(nodes[2].0 == a);
        assert(nodes[3].0 == b);
        assert forall|j: int| 0 <= j < 9 implies a[j] == b[j] by {
            if j == 0 {
            } else if j == 1 {
            } else if j == 2 {
            } else if j == 3 {
            } else if j == 4 {
            } else if j == 5 {
            } else if j == 6 {
            } else if j == 7 {
            } else if j == 8 {
            }
        }
    }
    assert(differs_at(nodes[3].0, nodes[4].0, 1)) by {
        let a = "bch_test_2"@;
        let b = "btc_main_1"@;
        reveal_strlit("bch_test_2");
        reveal_strlit("btc_main_1");
        assert(nodes[3].0 == a);
        assert(nodes[4].0 == b);
        assert forall|j: int| 0 <= j < 1 implies a[j] == b[j] by {
            if j == 0 {
            }
        }
    }
    assert(differs_at(nodes[4].0, nodes[5].0, 9)) by {
        let a = "btc_main_1"@;
        let b = "btc_main_2"@;
        reveal_strlit("btc_main_1");
        reveal_strlit("btc_main_2");
        assert(nodes[4].0 == a);
        assert(nodes[5].0 == b);
        assert forall|j: int| 0 <= j < 9 implies a[j] == b[j] by {
            if j == 0 {
            } else if j == 1 {
            } else if j == 2 {
            } else if j == 3 {
            } else if j == 4 {
            } else if j == 5 {
            } else if j == 6 {
            } else if j == 7 {
            } else if j == 8 {
            }
        }
    }
    assert(differs_at(nodes[5].0, nodes[6].0, 4)) by {
        let a = "btc_main_2"@;
        let b = "btc_test_1"@;
        reveal_strlit("btc_main_2");
        reveal_strlit("btc_test_1");
        assert(nodes[5].0 == a);
        assert(nodes[6].0 == b);
        assert forall|j: int| 0 <= j < 4 implies a[j] == b[j] by {
            if j == 0 {
            } else if j == 1 {
            } else if j == 2 {
            } else if j == 3 {
            }
        }
    }
    assert(differs_at(nodes[6].0, nodes[7].0, 9)) by {
        let a = "btc_test_1"@;
        let b = "btc_test_2"@;
        reveal_strlit("btc_test_1");
        reveal_strlit("btc_test_2");
        assert(nodes[6].0 == a);
        assert(nodes[7].0 == b);
        assert forall|j: int| 0 <= j < 9 implies a[j] == b[j] by {
            if j == 0 {
            } else if j == 1 {
            } else if j == 2 {
            } else if j == 3 {
            } else if j == 4 {
            } else if j == 5 {
            } else if j == 6 {
            } else if j == 7 {
            } else if j == 8 {
            }
        }
    }
    assert(differs_at(nodes[7].0, nodes[8].0, 0)) by {
        let a = "btc_test_2"@;
        let b = "dash_main_1"@;
        reveal_strlit("btc_test_2");
        reveal_strlit("dash_main_1");
        assert(nodes[7].0 == a);
        assert(nodes[8].0 == b);
    }
    assert(differs_at(nodes[8].0, nodes[9].0, 10)) by {
        let a = "dash_main_1"@;
        let b = "dash_main_2"@;
        reveal_strlit("dash_main_1");
        reveal_strlit("dash_main_2");
        assert(nodes[8].0 == a);
        assert(nodes[9].0 == b);
        assert forall|j: int| 0 <= j < 10 implies a[j] == b[j] by {
            if j == 0 {
            } else if j == 1 {
            } else if j == 2 {
            } else if j == 3 {
            } else if j == 4 {
            } else if j == 5 {
            } else if j == 6 {
            } else if j == 7 {
            } else if j == 8 {
            } else if j == 9 {
            }
        }
    }
    assert(differs_at(nodes[9].0, nodes[10].0, 5)) by {
        let a = "dash_main_2"@;
        let b = "dash_test_1"@;
        reveal_strlit("dash_main_2");
        reveal_strlit("dash_test_1");
        assert(nodes[9].0 == a);
        assert(nodes[10].0 == b);
        assert forall|j: int| 0 <= j < 5 implies a[j] == b[j] by {
            if j == 0 {
            } else if j == 1 {
            } else if j == 2 {
            } else if j == 3 {
            } else if j == 4 {
            }
        }
    }
    assert(differs_at(nodes[10].0, nodes[11].0, 10)) by {
        let a = "dash_test_1"@;
        let b = "dash_test_2"@;
        reveal_strlit("dash_test_1");
        reveal_strlit("dash_test_2");
        assert(nodes[10].0 == a);
        assert(nodes[11].0 == b);
        assert forall|j: int| 0 <= j < 10 implies a[j] == b[j] by {
            if j == 0 {
            } else if j == 1 {
            } else if j == 2 {
            } else if j == 3 {
            } else if j == 4 {
            } else if j == 5 {
            } else if j == 6 {
            } else if j == 7 {
            } else if j == 8 {
            } else if j == 9 {
            }
        }
    }
    assert(differs_at(nodes[11].0, nodes[12].0, 1)) by {
        let a = "dash_test_2"@;
        let b = "doge_main_1"@;
        reveal_strlit("dash_test_2");
        reveal_strlit("doge_main_1");
        assert(nodes[11].0 == a);
        assert(nodes[12].0 == b);
        assert forall|j: int| 0 <= j < 1 implies a[j] == b[j] by {
            if j == 0 {
            }
        }
    }
    assert(differs_at(nodes[12].0, nodes[13].0, 10)) by {
        let a = "doge_main_1"@;
        let b = "doge_main_2"@;
        reveal_strlit("doge_main_1");
        reveal_strlit("doge_main_2");
        assert(nodes[12].0 == a);
        assert(nodes[13].0 == b);
        assert forall|j: int| 0 <= j < 10 implies a[j] == b[j] by {
            if j == 0 {
            } else if j == 1 {
            } else if j == 2 {
            } else if j == 3 {
            } else if j == 4 {
            } else if j == 5 {
            } else if j == 6 {
            } else if j == 7 {
            } else if j == 8 {
            } else if j == 9 {
            }
        }
    }
    assert(differs_at(nodes[13].0, nodes[14].0, 5)) by {
        let a = "doge_main_2"@;
        let b = "doge_test_1"@;
        reveal_strlit("doge_main_2");
        reveal_strlit("doge_test_1");
        assert(nodes[13].0 == a);
        assert(nodes[14].0 == b);
        assert forall|j: int| 0 <= j < 5 implies a[j] == b[j] by {
            if j == 0 {
            } else if j == 1 {
            } else if j == 2 {
            } else if j == 3 {
            } else if j == 4 {
            }
        }
    }
    assert(differs_at(nodes[14].0, nodes[15].0, 10)) by {
        let a = "doge_test_1"@;
        let b = "doge_test_2"@;
        reveal_strlit("doge_test_1");
        reveal_strlit("doge_test_2");
        assert(nodes[14].0 == a);
        assert(nodes[15].0 == b);
        assert forall|j: int| 0 <= j < 10 implies a[j] == b[j] by {
            if j == 0 {
            } else if j == 1 {
            } else if j == 2 {
            } else if j == 3 {
            } else if j == 4 {
            } else if j == 5 {
            } else if j == 6 {
            } else if j == 7 {
            } else if j == 8 {
            } else if j == 9 {
            }
        }
    }
    assert(differs_at(nodes[15].0, nodes[16].0, 0)) by {
        let a = "doge_test_2"@;
        let b = "ltc_main_1"@;
        reveal_strlit("doge_test_2");
        reveal_strlit("ltc_main_1");
        assert(nodes[15].0 == a);
        assert(nodes[16].0 == b);
    }
    assert(differs_at(nodes[16].0, nodes[17].0, 9)) by {
        let a = "ltc_main_1"@;
        let b = "ltc_main_2"@;
        reveal_strlit("ltc_main_1");
        reveal_strlit("ltc_main_2");
        assert(nodes[16].0 == a);
        assert(nodes[17].0 == b);
        assert forall|j: int| 0 <= j < 9 implies a[j] == b[j] by {
            if j == 0 {
            } else if j == 1 {
            } else if j == 2 {
            } else if j == 3 {
            } else if j == 4 {
            } else if j == 5 {
            } else if j == 6 {
            } else if j == 7 {
            } else if j == 8 {
            }
        }
    }
    assert(differs_at(nodes[17].0, nodes[18].0, 4)) by {
        let a = "ltc_main_2"@;
        let b = "ltc_test_1"@;
        reveal_strlit("ltc_main_2");
        reveal_strlit("ltc_test_1");
        assert(nodes[17].0 == a);
        assert(nodes[18].0 == b);
        assert forall|j: int| 0 <= j < 4 implies a[j] == b[j] by {
            if j == 0 {
            } else if j == 1 {
            } else if j == 2 {
            } else if j == 3 {
            }
        }
    }
    assert(differs_at(nodes[18].0, nodes[19].0, 9)) by {
        let a = "ltc_test_1"@;
        let b = "ltc_test_2"@;
        reveal_strlit("ltc_test_1");
        reveal_strlit("ltc_test_2");
        assert(nodes[18].0 == a);
        assert(nodes[19].0 == b);
        assert forall|j: int| 0 <= j < 9 implies a[j] == b[j] by {
            if j == 0 {
            } else if j == 1 {
            } else if j == 2 {
            } else if j == 3 {
            } else if j == 4 {
            } else if j == 5 {
            } else if j == 6 {
            } else if j == 7 {
            } else if j == 8 {
            }
        }
    }
    assert(differs_at(nodes[19].0, nodes[20].0, 0)) by {
        let a = "ltc_test_2"@;
        let b = "zcash_main_1"@;
        reveal_strlit("ltc_test_2");
        reveal_strlit("zcash_main_1");
        assert(nodes[19].0 == a);
        assert(nodes[20].0 == b);
    }
    assert(differs_at(nodes[20].0, nodes[21].0, 11)) by {
        let a = "zcash_main_1"@;
        let b = "zcash_main_2"@;
        reveal_strlit("zcash_main_1");
        reveal_strlit("zcash_main_2");
        assert(nodes[20].0 == a);
        assert(nodes[21].0 == b);
        assert forall|j: int| 0 <= j < 11 implies a[j] == b[j] by {
            if j == 0 {
            } else if j == 1 {
            } else if j == 2 {
            } else if j == 3 {
            } else if j == 4 {
            } else if j == 5 {
            } else if j == 6 {
            } else if j == 7 {
            } else if j == 8 {
            } else if j == 9 {
            } else if j == 10 {
            }
        }
    }
    assert(differs_at(nodes[21].0, nodes[22].0, 6)) by {
        let a = "zcash_main_2"@;
        let b = "zcash_test_1"@;
        reveal_strlit("zcash_main_2");
        reveal_strlit("zcash_test_1");
        assert(nodes[21].0 == a);
        assert(nodes[22].0 == b);
        assert forall|j: int| 0 <= j < 6 implies a[j] == b[j] by {
            if j == 0 {
            } else if j == 1 {
            } else if j == 2 {
            } else if j == 3 {
            } else if j == 4 {
            } else if j == 5 {
            }
        }
    }
    assert(differs_at(nodes[22].0, nodes[23].0, 11)) by {
        let a = "zcash_test_1"@;
        let b = "zcash_test_2"@;
        reveal_strlit("zcash_test_1");
        reveal_strlit("zcash_test_2");
        assert(nodes[22].0 == a);
        assert(nodes[23].0 == b);
        assert forall|j: int| 0 <= j < 11 implies a[j] == b[j] by {
            if j == 0 {
            } else if j == 1 {
            } else if j == 2 {
            } else if j == 3 {
            } else if j == 4 {
            } else if j == 5 {
            } else if j == 6 {
            } else if j == 7 {
            } else if j == 8 {
            } else if j == 9 {
            } else if j == 10 {
            }
        }
    }
    assert forall|k: int| 0 <= k < nodes.len() - 1 implies text_before(
        #[trigger] nodes[k].0,
        nodes[k + 1].0,
    ) by {
        if k == 0 {
            assert(differs_at(nodes[0].0, nodes[1].0, 9));
        }
        if k == 1 {
            assert(differs_at(nodes[1].0, nodes[2].0, 4));
        }
        if k == 2 {
            assert(differs_at(nodes[2].0, nodes[3].0, 9));
        }
        if k == 3 {
            assert(differs_at(nodes[3].0, nodes[4].0, 1));
        }
        if k == 4 {
            assert(differs_at(nodes[4].0, nodes[5].0, 9));
        }
        if k == 5 {
            assert(differs_at(nodes[5].0, nodes[6].0, 4));
        }
        if k == 6 {
            assert(differs_at(nodes[6].0, nodes[7].0, 9));
        }
        if k == 7 {
            assert(differs_at(nodes[7].0, nodes[8].0, 0));
        }
        if k == 8 {
            assert(differs_at(nodes[8].0, nodes[9].0, 10));
        }
        if k == 9 {
            assert(differs_at(nodes[9].0, nodes[10].0, 5));
        }
        if k == 10 {
            assert(differs_at(nodes[10].0, nodes[11].0, 10));
        }
        if k == 11 {
            assert(differs_at(nodes[11].0, nodes[12].0, 1));
        }
        if k == 12 {
            assert(differs_at(nodes[12].0, nodes[13].0, 10));
        }
        if k == 13 {
            assert(differs_at(nodes[13].0, nodes[14].0, 5));
        }
        if k == 14 {
            assert(differs_at(nodes[14].0, nodes[15].0, 10));
        }
        if k == 15 {
            assert(differs_at(nodes[15].0, nodes[16].0, 0));
        }
        if k == 16 {
            assert(differs_at(nodes[16].0, nodes[17].0, 9));
        }
        if k == 17 {
            assert(differs_at(nodes[17].0, nodes[18].0, 4));
        }
        if k == 18 {
            assert(differs_at(nodes[18].0, nodes[19].0, 9));
        }
        if k == 19 {
            assert(differs_at(nodes[19].0, nodes[20].0, 0));
        }
        if k == 20 {
            assert(differs_at(nodes[20].0, nodes[21].0, 11));
        }
        if k == 21 {
            assert(differs_at(nodes[21].0, nodes[22].0, 6));
        }
        if k == 22 {
            assert(differs_at(nodes[22].0, nodes[23].0, 11));
        }
    }
    assert forall|i: int, j: int| 0 <= i < j < nodes.len() implies text_before(
        #[trigger] nodes[i].0,
        #[trigger] nodes[j].0,
    ) by {
        lemma_steps_ascend(nodes, i, j);
    }
    lemma_ascending_keys_are_distinct(nodes);
}

/// The keys and addresses of a list of nodes as plain text.
pub open spec fn electrumx_text(nodes: Seq<(String, String)>) -> Seq<(Seq<char>, Seq<char>)> {
    Seq::new(nodes.len(), |i: int| (nodes[i].0@, nodes[i].1@))
}

/// The nodes of the secondary coins that a new configuration names, under
/// keys in ascending order.
pub fn default_swap_electrumx_addr() -> (nodes: Vec<(String, String)>)
    ensures
        electrumx_text(nodes@) == default_electrumx_addr(),
        keys_ascending(electrumx_text(nodes@)),
        keys_distinct(electrumx_text(nodes@)),
{
    proof {
        lemma_default_keys_ascend();
    }
    let mut nodes: Vec<(String, String)> = Vec::new();
    nodes.push(("bch_main_1".to_owned(), "bch.main1.swap.mwc.mw:18333".to_owned()));
    nodes.push(("bch_main_2".to_owned(), "bch.main2.swap.mwc.mw:18333".to_owned()));
    nodes.push(("bch_test_1".to_owned(), "bch.test1.swap.mwc.mw:18335".to_owned()));
    nodes.push(("bch_test_2".to_owned(), "bch.test1.swap.mwc.mw:18335".to_owned()));
    nodes.push(("btc_main_1".to_owned(), "btc.main1.swap.mwc.mw:18337".to_owned()));
    nodes.push(("btc_main_2".to_owned(), "btc.main2.swap.mwc.mw:18337".to_owned()));
    nodes.push(("btc_test_1".to_owned(), "btc.test1.swap.mwc.mw:18339".to_owned()));
    nodes.push(("btc_test_2".to_owned(), "btc.test2.swap.mwc.mw:18339".to_owned()));
    nodes.push(("dash_main_1".to_owned(), "dash.main1.swap.mwc.mw:18351".to_owned()));
    nodes.push(("dash_main_2".to_owned(), "dash.main2.swap.mwc.mw:18351".to_owned()));
    nodes.push(("dash_test_1".to_owned(), "dash.test1.swap.mwc.mw:18349".to_owned()));
    nodes.push(("dash_test_2".to_owned(), "dash.test1.swap.mwc.mw:18349".to_owned()));
    nodes.push(("doge_main_1".to_owned(), "doge.main1.swap.mwc.mw:18359".to_owned()));
    nodes.push(("doge_main_2".to_owned(), "doge.main2.swap.mwc.mw:18359".to_owned()));
    nodes.push(("doge_test_1".to_owned(), "doge.test1.swap.mwc.mw:18357".to_owned()));
    nodes.push(("doge_test_2".to_owned(), "doge.test1.swap.mwc.mw:18357".to_owned()));
    nodes.push(("ltc_main_1".to_owned(), "ltc.main1.swap.mwc.mw:18343".to_owned()));
    nodes.push(("ltc_main_2".to_owned(), "ltc.main2.swap.mwc.mw:18343".to_owned()));
    nodes.push(("ltc_test_1".to_owned(), "ltc.test1.swap.mwc.mw:18341".to_owned()));
    nodes.push(("ltc_test_2".to_owned(), "ltc.test1.swap.mwc.mw:18341".to_owned()));
    nodes.push(("zcash_main_1".to_owned(), "zcash.main1.swap.mwc.mw:18355".to_owned()));
    nodes.push(("zcash_main_2".to_owned(), "zcash.main2.swap.mwc.mw:18355".to_owned()));
    nodes.push(("zcash_test_1".to_owned(), "zcash.test1.swap.mwc.mw:18353".to_owned()));
    nodes.push(("zcash_test_2".to_owned(), "zcash.test1.swap.mwc.mw:18353".to_owned()));
    assert(electrumx_text(nodes@) =~= default_electrumx_addr());
    nodes
}

impl WalletConfig {
    /// Whether the nodes of the secondary coins stand as a sorted map holds
    /// them: under keys in ascending order, and so no key twice.
    pub open spec fn well_formed(&self) -> bool {
        match self.swap_electrumx_addr {
            Some(nodes) => keys_ascending(electrumx_text(nodes@)),
            None => true,
        }
    }

    /// The address on which the API of the wallet listens: interface, colon, port.
    pub fn api_listen_addr(&self) -> (addr: String)
        ensures
            addr@ == self.api_listen_interface@ + ":"@ + decimal_text(self.api_listen_port as nat),
    {
        let port = u64_to_string(self.api_listen_port as u64);
        join3(self.api_listen_interface.as_str(), ":", port.as_str())
    }

    /// Port of the owner API where the configuration names none.
    pub fn default_owner_api_listen_port() -> (port: u16)
        ensures
            port == DEFAULT_OWNER_API_LISTEN_PORT,
    {
        DEFAULT_OWNER_API_LISTEN_PORT
    }

    /// Port of the owner API: that of the configuration, else the default.
    pub fn owner_api_listen_port(&self) -> (port: u16)
        ensures
            port == match self.owner_api_listen_port {
                Some(p) => p,
                None => DEFAULT_OWNER_API_LISTEN_PORT,
            },
    {
        match self.owner_api_listen_port {
            Some(p) => p,
            None => WalletConfig::default_owner_api_listen_port(),
        }
    }

    /// The address on which the owner API listens: always on the local host.
    pub fn owner_api_listen_addr(&self) -> (addr: String)
        ensures
            addr@ == "127.0.0.1:"@ + decimal_text(
                (match self.owner_api_listen_port {
                    Some(p) => p,
                    None => DEFAULT_OWNER_API_LISTEN_PORT,
                }) as nat,
            ),
    {
        let port = u64_to_string(self.owner_api_listen_port() as u64);
        join2("127.0.0.1:", port.as_str())
    }

    /// Directory of the wallet data: that of the configuration, else the default.
    pub fn get_data_path(&self) -> (path: String)
        ensures
            path@ == match self.wallet_data_dir {
                Some(d) => d@,
                None => GRIN_WALLET_DIR@,
            },
    {
        match &self.wallet_data_dir {
            Some(d) => d.clone(),
            None => GRIN_WALLET_DIR.to_owned(),
        }
    }
}

impl Default for WalletConfig {
    fn default() -> (c: WalletConfig)
        ensures
            c.chain_type == Some(ChainTypes::Mainnet),
            c.api_listen_interface@ == "127.0.0.1"@,
            c.api_listen_port == 3415,
            c.owner_api_listen_port == Some(DEFAULT_OWNER_API_LISTEN_PORT),
            c.api_secret_path is Some && c.api_secret_path->0@ == ".owner_api_secret"@,
            c.node_api_secret_path is Some && c.node_api_secret_path->0@ == ".api_secret"@,
            c.check_node_api_http_addr@ == "http://127.0.0.1:3413"@,
            c.owner_api_include_foreign == Some(false),
            c.owner_api_include_mqs_listener == Some(false),
            c.data_file_dir@ == "."@,
            c.grinbox_address_index is None,
            c.no_commit_cache == Some(false),
            c.tls_certificate_file is None,
            c.tls_certificate_key is None,
            c.dark_background_color_scheme == Some(true),
            c.wallet_data_dir is None,
            c.swap_electrumx_addr is Some && electrumx_text(c.swap_electrumx_addr->0@)
                == default_electrumx_addr(),
            c.well_formed(),
            c.eth_swap_addr is Some && c.eth_swap_addr->0@
                == "0xA21b2c034dF046a3DB790dd20b0C5C0040a74c67"@,
    {
        WalletConfig {
            chain_type: Some(ChainTypes::Mainnet),
            api_listen_interface: "127.0.0.1".to_owned(),
            api_listen_port: 3415,
            owner_api_listen_port: Some(WalletConfig::default_owner_api_listen_port()),
            api_secret_path: Some(".owner_api_secret".to_owned()),
            node_api_secret_path: Some(".api_secret".to_owned()),
            check_node_api_http_addr: "http://127.0.0.1:3413".to_owned(),
            owner_api_include_foreign: Some(false),
            owner_api_include_mqs_listener: Some(false),
            data_file_dir: ".".to_owned(),
            grinbox_address_index: None,
            no_commit_cache: Some(false),
            tls_certificate_file: None,
            tls_certificate_key: None,
            dark_background_color_scheme: Some(true),
            wallet_data_dir: None,
            swap_electrumx_addr: Some(default_swap_electrumx_addr()),
            eth_swap_addr: Some("0xA21b2c034dF046a3DB790dd20b0C5C0040a74c67".to_owned()),
        }
    }
}

/// What can go wrong with the configuration.
#[derive(Debug)]
pub enum ConfigError {
    /// The file does not parse: file name, then the reason.
    ParseError(String, String),
    /// The file cannot be read or written.
    FileIOError(String),
    /// The file is not there.
    FileNotFoundError(String),
    /// The values cannot be written out.
    SerializationError(String),
    /// A path that is needed is not there.
    PathNotFoundError(String),
}

impl ConfigError {
    /// The text of the error.
    pub open spec fn spec_text(&self) -> Seq<char> {
        match *self {
            ConfigError::ParseError(file, reason) => "Error parsing configuration file at "@
                + file@ + ", "@ + reason@,
            ConfigError::FileIOError(reason) => "Config IO error, "@ + reason@,
            ConfigError::FileNotFoundError(file) => "Configuration file not found: "@ + file@,
            ConfigError::SerializationError(reason) => "Error serializing configuration, "@
                + reason@,
            ConfigError::PathNotFoundError(path) => "Not found expected path "@ + path@,
        }
    }

    /// The text of the error.
    pub fn to_string(&self) -> (text: String)
        ensures
            text@ == self.spec_text(),
    {
        match self {
            ConfigError::ParseError(file, reason) => {
                let head = join3("Error parsing configuration file at ", file.as_str(), ", ");
                join2(head.as_str(), reason.as_str())
            },
            ConfigError::FileIOError(reason) => join2("Config IO error, ", reason.as_str()),
            ConfigError::FileNotFoundError(file) => join2(
                "Configuration file not found: ",
                file.as_str(),
            ),
            ConfigError::SerializationError(reason) => join2(
                "Error serializing configuration, ",
                reason.as_str(),
            ),
            ConfigError::PathNotFoundError(path) => join2("Not found expected path ", path.as_str()),
        }
    }

    /// The error for a file that could not be loaded, with the reason.
    pub fn from_io(reason: &str) -> (e: ConfigError)
        ensures
            e matches ConfigError::FileIOError(text) && text@ == "Error loading config file, "@
                + reason@,
    {
        ConfigError::FileIOError(join2("Error loading config file, ", reason))
    }
}

/// Configuration of the Tor listener.
#[derive(Clone, Debug, PartialEq)]
pub struct TorConfig {
    /// Whether the Tor listener starts with the other listeners.
    pub use_tor_listener: bool,
    /// The address of the socks proxy.
    pub socks_proxy_addr: String,
    /// Directory of the configuration for sending.
    pub send_config_dir: String,
    /// Whether the socks proxy is already running.
    pub socks_running: bool,
}

impl Default for TorConfig {
    fn default() -> (c: TorConfig)
        ensures
            c.use_tor_listener,
            c.socks_proxy_addr@ == "127.0.0.1:59050"@,
            c.send_config_dir@ == "."@,
            !c.socks_running,
    {
        TorConfig {
            use_tor_listener: true,
            socks_proxy_addr: "127.0.0.1:59050".to_owned(),
            send_config_dir: ".".to_owned(),
            socks_running: false,
        }
    }
}

/// Configuration of the message queue.
#[derive(Clone, Debug, PartialEq)]
pub struct MQSConfig {
    /// Domain of the message queue.
    pub mwcmqs_domain: String,
    /// Port of the message queue.
    pub mwcmqs_port: u16,
}

impl Default for MQSConfig {
    fn default() -> (c: MQSConfig)
        ensures
            c.mwcmqs_domain@ == "mqs.mwc.mw"@,
            c.mwcmqs_port == 443,
    {
        MQSConfig { mwcmqs_domain: "mqs.mwc.mw".to_owned(), mwcmqs_port: 443 }
    }
}

/// The configuration of the wallet with the file that it was read from.
#[derive(Clone, Debug, PartialEq)]
pub struct GlobalWalletConfig {
    /// The file that was read.
    pub config_file_path: Option<std::path::PathBuf>,
    /// What the file holds.
    pub members: Option<GlobalWalletConfigMembers>,
}

/// What the configuration file of the wallet holds.
#[derive(Clone, Debug, PartialEq)]
pub struct GlobalWalletConfigMembers {
    /// Configuration of the wallet.
    pub wallet: WalletConfig,
    /// Configuration of the Tor listener.
    pub tor: Option<TorConfig>,
    /// Configuration of the message queue.
    pub mqs: Option<MQSConfig>,
    /// Configuration of the logger.
    pub logging: Option<grin_util::logger::LoggingConfig>,
}

} // verus!
