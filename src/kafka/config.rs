use vstd::prelude::*;
use vstd::string::StringExecFns;

use crate::kafka::ids::random_uuid;
use crate::kafka::table::KeyedTable;

verus! {

/// Broker connection settings as plain values.
#[derive(Debug, Clone)]
pub struct KafkaConfig {
    pub cluster_id: String,
    pub bootstrap_servers: String,
    pub client_id: Option<String>,
    pub topics: Vec<String>,
}

/// How much the broker client itself logs, most severe first.
#[derive(Debug, Clone, Copy, PartialEq, Eq, Structural)]
pub enum ClientLogLevel {
    Emerg,
    Alert,
    Critical,
    Error,
    Warning,
    Notice,
    Info,
    Debug,
}

/// Settings of a broker client: a cluster id, an optional topic list, and a
/// key/value map of settings handed to the broker client as they are.
pub struct KafkaClientConfig {
    pub cluster_id: String,
    pub topics: Option<Vec<String>>,
    pub conf_map: KeyedTable<String>,
    pub log_level: ClientLogLevel,
}

/// Settings of a consumer in the older handler style: worker count and topics.
#[derive(Debug, Clone)]
pub struct ConsumerConfig {
    pub workers: usize,
    pub topics: Option<Vec<String>>,
}

impl Default for ConsumerConfig {
    fn default() -> (r: Self)
        ensures
            r.workers == 16,
            r.topics.is_none(),
    {
        ConsumerConfig { workers: 16, topics: None }
    }
}

/// The value `conf` maps `key` to is `value`.
pub open spec fn maps_to(conf: Map<Seq<char>, String>, key: Seq<char>, value: Seq<char>) -> bool {
    conf.contains_key(key) && conf[key]@ == value
}

fn put(conf: &mut KeyedTable<String>, key: &str, value: &str)
    requires
        old(conf).wf(),
    ensures
        final(conf).wf(),
        final(conf)@.dom() == old(conf)@.dom().insert(key@),
        forall|k: Seq<char>| k != key@ ==> #[trigger] final(conf)@.contains_key(k) == old(conf)@.contains_key(k) && (old(conf)@.contains_key(k) ==> final(conf)@[k] == old(conf)@[k]),
        maps_to(final(conf)@, key@, value@),
{
    conf.insert(key.to_owned(), value.to_owned());
}

impl KafkaClientConfig {
    pub open spec fn wf(&self) -> bool {
        self.conf_map.wf()
    }

    /// The settings map.
    pub open spec fn conf(&self) -> Map<Seq<char>, String> {
        self.conf_map@
    }

    /// Settings for `cluster_id` at `bootstrap_servers`: a client id of the form
    /// `<clusterId>-<uuid>`, the broker list, topic auto-creation on, and the
    /// default message size and retry backoff.
    pub fn new(cluster_id: String, bootstrap_servers: String) -> (r: Self)
        ensures
            r.wf(),
            r.cluster_id == cluster_id,
            r.topics.is_none(),
            r.log_level == ClientLogLevel::Info,
            r.conf().contains_key("client.id"@),
            exists|u: Seq<char>| u.len() == 36 && r.conf()["client.id"@]@ == cluster_id@ + "-"@ + u,
            maps_to(r.conf(), "bootstrap.servers"@, bootstrap_servers@),
            maps_to(r.conf(), "allow.auto.create.topics"@, "true"@),
            maps_to(r.conf(), "message.max.bytes"@, "1000000000"@),
            maps_to(r.conf(), "retry.backoff.ms"@, "200"@),
    {
        let mut client_id = cluster_id.as_str().to_owned();
        proof {
            reveal_strlit("client.id");
            assert("client.id"@.len() == 9);
            reveal_strlit("bootstrap.servers");
            assert("bootstrap.servers"@.len() == 17);
            reveal_strlit("allow.auto.create.topics");
            assert("allow.auto.create.topics"@.len() == 24);
            reveal_strlit("message.max.bytes");
            assert("message.max.bytes"@.len() == 17);
            reveal_strlit("retry.backoff.ms");
            assert("retry.backoff.ms"@.len() == 16);
            assert("bootstrap.servers"@[0] != "message.max.bytes"@[0]);
        }
        client_id.append("-");
        let u = random_uuid();
        client_id.append(u.as_str());
        let ghost id_view = client_id@;
        assert(id_view == cluster_id@ + "-"@ + u@);
        let mut conf_map: KeyedTable<String> = KeyedTable::new();
        put(&mut conf_map, "client.id", client_id.as_str());
        put(&mut conf_map, "bootstrap.servers", bootstrap_servers.as_str());
        assert(maps_to(conf_map@, "bootstrap.servers"@, bootstrap_servers@));
        put(&mut conf_map, "allow.auto.create.topics", "true");
        put(&mut conf_map, "message.max.bytes", "1000000000");
        put(&mut conf_map, "retry.backoff.ms", "200");
        assert(conf_map@.contains_key("client.id"@));
        assert(conf_map@.contains_key("bootstrap.servers"@));
        assert(conf_map@["client.id"@]@ == cluster_id@ + "-"@ + u@);
        KafkaClientConfig { cluster_id, topics: None, conf_map, log_level: ClientLogLevel::Info }
    }

    /// The same settings with `topics` as the subscription list.
    pub fn with_topics(self, topics: Vec<String>) -> (r: Self)
        ensures
            r == (KafkaClientConfig { topics: Some(topics), ..self }),
    {
        KafkaClientConfig { topics: Some(topics), ..self }
    }

    /// The same settings with `key` set to `value`.
    pub fn set(self, key: &str, value: &str) -> (r: Self)
        requires
            self.wf(),
        ensures
            r.wf(),
            r.cluster_id == self.cluster_id,
            r.topics == self.topics,
            r.log_level == self.log_level,
            r.conf().dom() == self.conf().dom().insert(key@),
            maps_to(r.conf(), key@, value@),
            forall|k: Seq<char>| k != key@ && #[trigger] self.conf().contains_key(k) ==> r.conf()[k] == self.conf()[k],
    {
        let mut c = self;
        put(&mut c.conf_map, key, value);
        c
    }

    pub fn set_log_level(&mut self, log_level: ClientLogLevel)
        ensures
            *final(self) == (KafkaClientConfig { log_level, ..*old(self) }),
    {
        self.log_level = log_level;
    }

    /// The value of setting `key`, if set.
    pub fn get_conf_with_key(&self, key: &str) -> (r: Option<&String>)
        requires
            self.wf(),
        ensures
            match r {
                Some(v) => self.conf().contains_key(key@) && self.conf()[key@] == *v,
                None => !self.conf().contains_key(key@),
            },
    {
        self.conf_map.get(key)
    }

    /// Every setting name, each once.
    pub fn get_conf_keys(&self) -> (r: Vec<String>)
        requires
            self.wf(),
        ensures
            r@.len() == self.conf().len(),
            forall|k: Seq<char>| self.conf().contains_key(k) <==> exists|i: int| 0 <= i < r@.len() && r@[i]@ == k,
    {
        self.conf_map.names()
    }

    /// Every setting as a (name, value) pair, each name once.
    pub fn get_conf_map(&self) -> (r: Vec<(String, String)>)
        requires
            self.wf(),
        ensures
            r@.len() == self.conf().len(),
            forall|i: int| 0 <= i < r@.len() ==> #[trigger] self.conf().contains_key(r@[i].0@) && self.conf()[r@[i].0@] == r@[i].1,
            forall|k: Seq<char>| #[trigger] self.conf().contains_key(k) ==> exists|i: int| 0 <= i < r@.len() && r@[i].0@ == k,
    {
        self.conf_map.pairs()
    }

    /// A copy of the configured topic list, if any.
    pub fn get_topics(&self) -> (r: Option<Vec<String>>)
        ensures
            match self.topics {
                Some(t) => r matches Some(c) && c@ == t@,
                None => r.is_none(),
            },
    {
        match &self.topics {
            Some(t) => {
                let mut out: Vec<String> = Vec::new();
                let mut i: usize = 0;
                while i < t.len()
                    invariant
                        i <= t@.len(),
                        out@ == t@.subrange(0, i as int),
                    decreases t@.len() - i,
                {
                    out.push(t[i].clone());
                    i += 1;
                }
                proof {
                    assert(t@.subrange(0, t@.len() as int) =~= t@);
                }
                Some(out)
            },
            None => None,
        }
    }

    pub fn get_cluster_id(&self) -> (r: &str)
        ensures
            r@ == self.cluster_id@,
    {
        self.cluster_id.as_str()
    }

    /// The topics a consumer subscribes to: the configured list, or the cluster
    /// id alone where that list is absent or empty.
    pub fn subscription_topics(&self) -> (r: Vec<String>)
        ensures
            match self.topics {
                Some(t) => if t@.len() > 0 { r@ == t@ } else { r@ == seq![self.cluster_id] },
                None => r@ == seq![self.cluster_id],
            },
    {
        match &self.topics {
            Some(t) => {
                if t.len() > 0 {
                    let mut out: Vec<String> = Vec::new();
                    let mut i: usize = 0;
                    while i < t.len()
                        invariant
                            i <= t@.len(),
                            out@ == t@.subrange(0, i as int),
                        decreases t@.len() - i,
                    {
                        out.push(t[i].clone());
                        i += 1;
                    }
                    proof {
                        assert(t@.subrange(0, t@.len() as int) =~= t@);
                    }
                    return out;
                }
            },
            None => {},
        }
        let mut out: Vec<String> = Vec::new();
        out.push(self.cluster_id.clone());
        proof {
            assert(out@ =~= seq![self.cluster_id]);
        }
        out
    }

    /// The settings a consumer runs with: these, plus partition-EOF events off,
    /// auto-commit on, offsets from the earliest, a 10 s session, a 0.5 s
    /// heartbeat, the cluster id as group id, and the large fetch size.
    pub fn consumer_config(self) -> (r: Self)
        requires
            self.wf(),
        ensures
            r.wf(),
            r.cluster_id == self.cluster_id,
            r.topics == self.topics,
            maps_to(r.conf(), "enable.partition.eof"@, "false"@),
            maps_to(r.conf(), "enable.auto.commit"@, "true"@),
            maps_to(r.conf(), "auto.offset.reset"@, "earliest"@),
            maps_to(r.conf(), "session.timeout.ms"@, "10000"@),
            maps_to(r.conf(), "heartbeat.interval.ms"@, "500"@),
            maps_to(r.conf(), "group.id"@, self.cluster_id@),
            maps_to(r.conf(), "fetch.message.max.bytes"@, "1000000000"@),
    {
        let mut c = self;
        let group = c.cluster_id.clone();
        proof {
            reveal_strlit("enable.partition.eof");
            assert("enable.partition.eof"@.len() == 20);
            reveal_strlit("enable.auto.commit");
            assert("enable.auto.commit"@.len() == 18);
            reveal_strlit("auto.offset.reset");
            assert("auto.offset.reset"@.len() == 17);
            reveal_strlit("session.timeout.ms");
            assert("session.timeout.ms"@.len() == 18);
            reveal_strlit("heartbeat.interval.ms");
            assert("heartbeat.interval.ms"@.len() == 21);
            reveal_strlit("group.id");
            assert("group.id"@.len() == 8);
            reveal_strlit("fetch.message.max.bytes");
            assert("fetch.message.max.bytes"@.len() == 23);
            assert("enable.auto.commit"@[0] != "session.timeout.ms"@[0]);
        }
        put(&mut c.conf_map, "enable.partition.eof", "false");
        put(&mut c.conf_map, "enable.auto.commit", "true");
        put(&mut c.conf_map, "auto.offset.reset", "earliest");
        put(&mut c.conf_map, "session.timeout.ms", "10000");
        put(&mut c.conf_map, "heartbeat.interval.ms", "500");
        put(&mut c.conf_map, "group.id", group.as_str());
        assert(maps_to(c.conf_map@, "group.id"@, self.cluster_id@));
        put(&mut c.conf_map, "fetch.message.max.bytes", "1000000000");
        assert(c.conf_map@.contains_key("group.id"@));
        c
    }

    /// The settings a producer runs with: these, plus fire-and-forget acks,
    /// a 60 s transaction timeout and up to ten send retries.
    pub fn producer_config(self) -> (r: Self)
        requires
            self.wf(),
        ensures
            r.wf(),
            r.cluster_id == self.cluster_id,
            maps_to(r.conf(), "acks"@, "0"@),
            maps_to(r.conf(), "transaction.timeout.ms"@, "60000"@),
            maps_to(r.conf(), "message.send.max.retries"@, "10"@),
    {
        proof {
            reveal_strlit("acks");
            assert("acks"@.len() == 4);
            reveal_strlit("transaction.timeout.ms");
            assert("transaction.timeout.ms"@.len() == 22);
            reveal_strlit("message.send.max.retries");
            assert("message.send.max.retries"@.len() == 24);
        }
        let mut c = self;
        put(&mut c.conf_map, "acks", "0");
        put(&mut c.conf_map, "transaction.timeout.ms", "60000");
        put(&mut c.conf_map, "message.send.max.retries", "10");
        c
    }
}

/// Where no topic list is given, or an empty one, a consumer subscribes to its
/// cluster id alone.
pub proof fn lemma_empty_topics_default_to_cluster(config: KafkaClientConfig, r: Seq<String>)
    requires
        config.topics matches Some(t) ==> t@.len() == 0,
        match config.topics {
            Some(t) => if t@.len() > 0 { r == t@ } else { r == seq![config.cluster_id] },
            None => r == seq![config.cluster_id],
        },
    ensures
        r == seq![config.cluster_id],
{
}

} // verus!
