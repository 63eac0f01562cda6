//! Category enums and the fixed keyword-to-category tables.
//!
//! Each table is an ordered list of (keyword, category) pairs. The order is
//! part of the contract: classification output order and the severity
//! tie-break both follow table order, so the tables are lists, not maps.

use vstd::prelude::*;

verus! {

/// Urgency tiers. `Hot`/`Cold` form the activity component of an urgency
/// pair; `Critical`/`Medium`/`Low` form the severity component.
#[derive(Debug, Copy, Clone, PartialEq, Eq, Structural)]
pub enum Urgency {
    Hot,
    Cold,
    Critical,
    Medium,
    Low,
}

#[derive(Debug, Copy, Clone, PartialEq, Eq, Structural)]
pub enum AttackType {
    Ransomware,
    Malware,
    Ddos,
    Botnet,
    Phishing,
    Trojan,
    Spyware,
    BruteForce,
    SQLInjection,
    Unknown,
}

#[derive(Debug, Copy, Clone, PartialEq, Eq, Structural)]
pub enum Target {
    WebApp,
    Infrastructure,
    ApiAbuse,
    IotDevices,
    UserFocused,
    EmailAttack,
    Unknown,
}

#[derive(Debug, Copy, Clone, PartialEq, Eq, Structural)]
pub enum AttackVector {
    Email,
    WebApplication,
    Network,
    CloudService,
    SupplyChain,
    Unknown,
}

/// View of an executable keyword table as a sequence of
/// (keyword characters, category) pairs.
pub open spec fn pairs_view<T>(v: Seq<(&'static str, T)>) -> Seq<(Seq<char>, T)> {
    v.map_values(|p: (&'static str, T)| (p.0@, p.1))
}

/// The attack-type table, in its fixed order.
pub open spec fn attack_type_table() -> Seq<(Seq<char>, AttackType)> {
    seq![
        ("ransom"@, AttackType::Ransomware),
        ("ransomware"@, AttackType::Ransomware),
        ("locker"@, AttackType::Ransomware),
        ("cryptolocker"@, AttackType::Ransomware),
        ("encryptor"@, AttackType::Ransomware),
        ("crypto-malware"@, AttackType::Ransomware),
        ("malware"@, AttackType::Malware),
        ("virus"@, AttackType::Malware),
        ("worm"@, AttackType::Malware),
        ("adware"@, AttackType::Malware),
        ("rootkit"@, AttackType::Malware),
        ("keylogger"@, AttackType::Malware),
        ("ddos"@, AttackType::Ddos),
        ("dos"@, AttackType::Ddos),
        ("denial of service"@, AttackType::Ddos),
        ("distributed denial of service"@, AttackType::Ddos),
        ("flood attack"@, AttackType::Ddos),
        ("syn flood"@, AttackType::Ddos),
        ("amplification attack"@, AttackType::Ddos),
        ("botnet"@, AttackType::Botnet),
        ("bot network"@, AttackType::Botnet),
        ("zombie network"@, AttackType::Botnet),
        ("c&c"@, AttackType::Botnet),
        ("command and control"@, AttackType::Botnet),
        ("phish"@, AttackType::Phishing),
        ("phishing"@, AttackType::Phishing),
        ("spearphish"@, AttackType::Phishing),
        ("spear-phishing"@, AttackType::Phishing),
        ("whaling"@, AttackType::Phishing),
        ("credential harvesting"@, AttackType::Phishing),
        ("email scam"@, AttackType::Phishing),
        ("smishing"@, AttackType::Phishing),
        ("vishing"@, AttackType::Phishing),
        ("trojan"@, AttackType::Trojan),
        ("trojan horse"@, AttackType::Trojan),
        ("dropper"@, AttackType::Trojan),
        ("backdoor"@, AttackType::Trojan),
        ("infostealer"@, AttackType::Trojan),
        ("spyware"@, AttackType::Spyware),
        ("snoopware"@, AttackType::Spyware),
        ("tracking software"@, AttackType::Spyware),
        ("monitoring tool"@, AttackType::Spyware),
        ("brute force"@, AttackType::BruteForce),
        ("bruteforce"@, AttackType::BruteForce),
        ("credential stuffing"@, AttackType::BruteForce),
        ("password cracking"@, AttackType::BruteForce),
        ("dictionary attack"@, AttackType::BruteForce),
        ("sql injection"@, AttackType::SQLInjection),
        ("sqli"@, AttackType::SQLInjection),
        ("injection attack"@, AttackType::SQLInjection),
        ("database injection"@, AttackType::SQLInjection),
        ("blind sql"@, AttackType::SQLInjection),
        ("error-based injection"@, AttackType::SQLInjection),
        ("union-based injection"@, AttackType::SQLInjection),
    ]
}

/// Builds the attack-type keyword table.
pub fn attack_type_keywords() -> (r: Vec<(&'static str, AttackType)>)
    ensures
        pairs_view(r@) == attack_type_table(),
{
    let mut m: Vec<(&'static str, AttackType)> = Vec::new();
    m.push(("ransom", AttackType::Ransomware));
    m.push(("ransomware", AttackType::Ransomware));
    m.push(("locker", AttackType::Ransomware));
    m.push(("cryptolocker", AttackType::Ransomware));
    m.push(("encryptor", AttackType::Ransomware));
    m.push(("crypto-malware", AttackType::Ransomware));
    m.push(("malware", AttackType::Malware));
    m.push(("virus", AttackType::Malware));
    m.push(("worm", AttackType::Malware));
    m.push(("adware", AttackType::Malware));
    m.push(("rootkit", AttackType::Malware));
    m.push(("keylogger", AttackType::Malware));
    m.push(("ddos", AttackType::Ddos));
    m.push(("dos", AttackType::Ddos));
    m.push(("denial of service", AttackType::Ddos));
    m.push(("distributed denial of service", AttackType::Ddos));
    m.push(("flood attack", AttackType::Ddos));
    m.push(("syn flood", AttackType::Ddos));
    m.push(("amplification attack", AttackType::Ddos));
    m.push(("botnet", AttackType::Botnet));
    m.push(("bot network", AttackType::Botnet));
    m.push(("zombie network", AttackType::Botnet));
    m.push(("c&c", AttackType::Botnet));
    m.push(("command and control", AttackType::Botnet));
    m.push(("phish", AttackType::Phishing));
    m.push(("phishing", AttackType::Phishing));
    m.push(("spearphish", AttackType::Phishing));
    m.push(("spear-phishing", AttackType::Phishing));
    m.push(("whaling", AttackType::Phishing));
    m.push(("credential harvesting", AttackType::Phishing));
    m.push(("email scam", AttackType::Phishing));
    m.push(("smishing", AttackType::Phishing));
    m.push(("vishing", AttackType::Phishing));
    m.push(("trojan", AttackType::Trojan));
    m.push(("trojan horse", AttackType::Trojan));
    m.push(("dropper", AttackType::Trojan));
    m.push(("backdoor", AttackType::Trojan));
    m.push(("infostealer", AttackType::Trojan));
    m.push(("spyware", AttackType::Spyware));
    m.push(("snoopware", AttackType::Spyware));
    m.push(("tracking software", AttackType::Spyware));
    m.push(("monitoring tool", AttackType::Spyware));
    m.push(("brute force", AttackType::BruteForce));
    m.push(("bruteforce", AttackType::BruteForce));
    m.push(("credential stuffing", AttackType::BruteForce));
    m.push(("password cracking", AttackType::BruteForce));
    m.push(("dictionary attack", AttackType::BruteForce));
    m.push(("sql injection", AttackType::SQLInjection));
    m.push(("sqli", AttackType::SQLInjection));
    m.push(("injection attack", AttackType::SQLInjection));
    m.push(("database injection", AttackType::SQLInjection));
    m.push(("blind sql", AttackType::SQLInjection));
    m.push(("error-based injection", AttackType::SQLInjection));
    m.push(("union-based injection", AttackType::SQLInjection));
    proof {
        assert(pairs_view(m@) =~= attack_type_table());
    }
    m
}

/// The attack-vector table, in its fixed order.
pub open spec fn attack_vector_table() -> Seq<(Seq<char>, AttackVector)> {
    seq![
        ("email"@, AttackVector::Email),
        ("phishing"@, AttackVector::Email),
        ("spearphish"@, AttackVector::Email),
        ("spoofing"@, AttackVector::Email),
        ("web"@, AttackVector::WebApplication),
        ("xss"@, AttackVector::WebApplication),
        ("cross-site scripting"@, AttackVector::WebApplication),
        ("sql injection"@, AttackVector::WebApplication),
        ("sqli"@, AttackVector::WebApplication),
        ("csrf"@, AttackVector::WebApplication),
        ("directory traversal"@, AttackVector::WebApplication),
        ("network"@, AttackVector::Network),
        ("ddos"@, AttackVector::Network),
        ("denial of service"@, AttackVector::Network),
        ("port scan"@, AttackVector::Network),
        ("mitm"@, AttackVector::Network),
        ("man in the middle"@, AttackVector::Network),
        ("cloud"@, AttackVector::CloudService),
        ("aws"@, AttackVector::CloudService),
        ("gcp"@, AttackVector::CloudService),
        ("azure"@, AttackVector::CloudService),
        ("bucket"@, AttackVector::CloudService),
        ("s3"@, AttackVector::CloudService),
        ("misconfig"@, AttackVector::CloudService),
        ("storage exposure"@, AttackVector::CloudService),
        ("supply chain"@, AttackVector::SupplyChain),
        ("dependency confusion"@, AttackVector::SupplyChain),
        ("software supply chain"@, AttackVector::SupplyChain),
        ("package hijack"@, AttackVector::SupplyChain),
        ("vendor compromise"@, AttackVector::SupplyChain),
    ]
}

/// Builds the attack-vector keyword table.
pub fn attack_vector_keywords() -> (r: Vec<(&'static str, AttackVector)>)
    ensures
        pairs_view(r@) == attack_vector_table(),
{
    let mut m: Vec<(&'static str, AttackVector)> = Vec::new();
    m.push(("email", AttackVector::Email));
    m.push(("phishing", AttackVector::Email));
    m.push(("spearphish", AttackVector::Email));
    m.push(("spoofing", AttackVector::Email));
    m.push(("web", AttackVector::WebApplication));
    m.push(("xss", AttackVector::WebApplication));
    m.push(("cross-site scripting", AttackVector::WebApplication));
    m.push(("sql injection", AttackVector::WebApplication));
    m.push(("sqli", AttackVector::WebApplication));
    m.push(("csrf", AttackVector::WebApplication));
    m.push(("directory traversal", AttackVector::WebApplication));
    m.push(("network", AttackVector::Network));
    m.push(("ddos", AttackVector::Network));
    m.push(("denial of service", AttackVector::Network));
    m.push(("port scan", AttackVector::Network));
    m.push(("mitm", AttackVector::Network));
    m.push(("man in the middle", AttackVector::Network));
    m.push(("cloud", AttackVector::CloudService));
    m.push(("aws", AttackVector::CloudService));
    m.push(("gcp", AttackVector::CloudService));
    m.push(("azure", AttackVector::CloudService));
    m.push(("bucket", AttackVector::CloudService));
    m.push(("s3", AttackVector::CloudService));
    m.push(("misconfig", AttackVector::CloudService));
    m.push(("storage exposure", AttackVector::CloudService));
    m.push(("supply chain", AttackVector::SupplyChain));
    m.push(("dependency confusion", AttackVector::SupplyChain));
    m.push(("software supply chain", AttackVector::SupplyChain));
    m.push(("package hijack", AttackVector::SupplyChain));
    m.push(("vendor compromise", AttackVector::SupplyChain));
    proof {
        assert(pairs_view(m@) =~= attack_vector_table());
    }
    m
}

/// The urgency table, in its fixed order. `Hot`/`Cold` entries feed no
/// component directly; only `Critical`/`Medium`/`Low` entries can set the
/// severity tier, the last match in table order winning.
pub open spec fn urgency_table() -> Seq<(Seq<char>, Urgency)> {
    seq![
        ("hot"@, Urgency::Hot),
        ("immediate"@, Urgency::Hot),
        ("active"@, Urgency::Hot),
        ("ongoing"@, Urgency::Hot),
        ("breaking"@, Urgency::Hot),
        ("cold"@, Urgency::Cold),
        ("stale"@, Urgency::Cold),
        ("archived"@, Urgency::Cold),
        ("historical"@, Urgency::Cold),
        ("retired"@, Urgency::Cold),
        ("inactive"@, Urgency::Cold),
        ("critical"@, Urgency::Critical),
        ("high"@, Urgency::Critical),
        ("severe"@, Urgency::Critical),
        ("urgent"@, Urgency::Critical),
        ("emergency"@, Urgency::Critical),
        ("medium"@, Urgency::Medium),
        ("moderate"@, Urgency::Medium),
        ("average"@, Urgency::Medium),
        ("balanced"@, Urgency::Medium),
        ("low"@, Urgency::Low),
        ("minor"@, Urgency::Low),
        ("negligible"@, Urgency::Low),
        ("low priority"@, Urgency::Low),
        ("minimal"@, Urgency::Low),
    ]
}

/// Builds the urgency keyword table.
pub fn urgency_keywords() -> (r: Vec<(&'static str, Urgency)>)
    ensures
        pairs_view(r@) == urgency_table(),
{
    let mut m: Vec<(&'static str, Urgency)> = Vec::new();
    m.push(("hot", Urgency::Hot));
    m.push(("immediate", Urgency::Hot));
    m.push(("active", Urgency::Hot));
    m.push(("ongoing", Urgency::Hot));
    m.push(("breaking", Urgency::Hot));
    m.push(("cold", Urgency::Cold));
    m.push(("stale", Urgency::Cold));
    m.push(("archived", Urgency::Cold));
    m.push(("historical", Urgency::Cold));
    m.push(("retired", Urgency::Cold));
    m.push(("inactive", Urgency::Cold));
    m.push(("critical", Urgency::Critical));
    m.push(("high", Urgency::Critical));
    m.push(("severe", Urgency::Critical));
    m.push(("urgent", Urgency::Critical));
    m.push(("emergency", Urgency::Critical));
    m.push(("medium", Urgency::Medium));
    m.push(("moderate", Urgency::Medium));
    m.push(("average", Urgency::Medium));
    m.push(("balanced", Urgency::Medium));
    m.push(("low", Urgency::Low));
    m.push(("minor", Urgency::Low));
    m.push(("negligible", Urgency::Low));
    m.push(("low priority", Urgency::Low));
    m.push(("minimal", Urgency::Low));
    proof {
        assert(pairs_view(m@) =~= urgency_table());
    }
    m
}

/// The target table, in its fixed order.
pub open spec fn target_table() -> Seq<(Seq<char>, Target)> {
    seq![
        ("webapp"@, Target::WebApp),
        ("web app"@, Target::WebApp),
        ("website"@, Target::WebApp),
        ("web application"@, Target::WebApp),
        ("web portal"@, Target::WebApp),
        ("online service"@, Target::WebApp),
        ("web service"@, Target::WebApp),
        ("infrastructure"@, Target::Infrastructure),
        ("server"@, Target::Infrastructure),
        ("servers"@, Target::Infrastructure),
        ("datacenter"@, Target::Infrastructure),
        ("data center"@, Target::Infrastructure),
        ("network infra"@, Target::Infrastructure),
        ("cloud infrastructure"@, Target::Infrastructure),
        ("system"@, Target::Infrastructure),
        ("backend"@, Target::Infrastructure),
        ("api abuse"@, Target::ApiAbuse),
        ("api exploitation"@, Target::ApiAbuse),
        ("api attack"@, Target::ApiAbuse),
        ("api misuse"@, Target::ApiAbuse),
        ("rest api"@, Target::ApiAbuse),
        ("graphql api"@, Target::ApiAbuse),
        ("api endpoint"@, Target::ApiAbuse),
        ("iot"@, Target::IotDevices),
        ("device"@, Target::IotDevices),
        ("smart devices"@, Target::IotDevices),
        ("smart home"@, Target::IotDevices),
        ("embedded systems"@, Target::IotDevices),
        ("industrial control systems"@, Target::IotDevices),
        ("ics"@, Target::IotDevices),
        ("plc"@, Target::IotDevices),
        ("smart tv"@, Target::IotDevices),
        ("iot network"@, Target::IotDevices),
        ("user"@, Target::UserFocused),
        ("users"@, Target::UserFocused),
        ("human"@, Target::UserFocused),
        ("human target"@, Target::UserFocused),
        ("social engineering"@, Target::UserFocused),
        ("account takeover"@, Target::UserFocused),
        ("identity theft"@, Target::UserFocused),
        ("credential theft"@, Target::UserFocused),
        ("login brute force"@, Target::UserFocused),
        ("phishing scam"@, Target::UserFocused),
        ("email"@, Target::EmailAttack),
        ("email attack"@, Target::EmailAttack),
        ("email phishing"@, Target::EmailAttack),
        ("email spoofing"@, Target::EmailAttack),
        ("spam email"@, Target::EmailAttack),
        ("malicious email"@, Target::EmailAttack),
        ("email fraud"@, Target::EmailAttack),
        ("spearphishing"@, Target::EmailAttack),
        ("mail scam"@, Target::EmailAttack),
        ("mail fraud"@, Target::EmailAttack),
    ]
}

/// Builds the target keyword table.
pub fn target_keywords() -> (r: Vec<(&'static str, Target)>)
    ensures
        pairs_view(r@) == target_table(),
{
    let mut m: Vec<(&'static str, Target)> = Vec::new();
    m.push(("webapp", Target::WebApp));
    m.push(("web app", Target::WebApp));
    m.push(("website", Target::WebApp));
    m.push(("web application", Target::WebApp));
    m.push(("web portal", Target::WebApp));
    m.push(("online service", Target::WebApp));
    m.push(("web service", Target::WebApp));
    m.push(("infrastructure", Target::Infrastructure));
    m.push(("server", Target::Infrastructure));
    m.push(("servers", Target::Infrastructure));
    m.push(("datacenter", Target::Infrastructure));
    m.push(("data center", Target::Infrastructure));
    m.push(("network infra", Target::Infrastructure));
    m.push(("cloud infrastructure", Target::Infrastructure));
    m.push(("system", Target::Infrastructure));
    m.push(("backend", Target::Infrastructure));
    m.push(("api abuse", Target::ApiAbuse));
    m.push(("api exploitation", Target::ApiAbuse));
    m.push(("api attack", Target::ApiAbuse));
    m.push(("api misuse", Target::ApiAbuse));
    m.push(("rest api", Target::ApiAbuse));
    m.push(("graphql api", Target::ApiAbuse));
    m.push(("api endpoint", Target::ApiAbuse));
    m.push(("iot", Target::IotDevices));
    m.push(("device", Target::IotDevices));
    m.push(("smart devices", Target::IotDevices));
    m.push(("smart home", Target::IotDevices));
    m.push(("embedded systems", Target::IotDevices));
    m.push(("industrial control systems", Target::IotDevices));
    m.push(("ics", Target::IotDevices));
    m.push(("plc", Target::IotDevices));
    m.push(("smart tv", Target::IotDevices));
    m.push(("iot network", Target::IotDevices));
    m.push(("user", Target::UserFocused));
    m.push(("users", Target::UserFocused));
    m.push(("human", Target::UserFocused));
    m.push(("human target", Target::UserFocused));
    m.push(("social engineering", Target::UserFocused));
    m.push(("account takeover", Target::UserFocused));
    m.push(("identity theft", Target::UserFocused));
    m.push(("credential theft", Target::UserFocused));
    m.push(("login brute force", Target::UserFocused));
    m.push(("phishing scam", Target::UserFocused));
    m.push(("email", Target::EmailAttack));
    m.push(("email attack", Target::EmailAttack));
    m.push(("email phishing", Target::EmailAttack));
    m.push(("email spoofing", Target::EmailAttack));
    m.push(("spam email", Target::EmailAttack));
    m.push(("malicious email", Target::EmailAttack));
    m.push(("email fraud", Target::EmailAttack));
    m.push(("spearphishing", Target::EmailAttack));
    m.push(("mail scam", Target::EmailAttack));
    m.push(("mail fraud", Target::EmailAttack));
    proof {
        assert(pairs_view(m@) =~= target_table());
    }
    m
}

} // verus!
