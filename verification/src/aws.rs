//! Cloud resource handles attached to a cluster specification.

use vstd::prelude::*;

verus! {

/// Cloud resources of a cluster.  The bucket and region are filled at
/// derivation time; the backup triple is either fully absent or fully
/// present.
#[derive(Debug, PartialEq, Clone)]
pub struct Resources {
    /// The region every stack of the cluster is created in.
    pub region: String,
    /// The shared object-storage bucket of the cluster.
    pub s3_bucket: String,
    pub db_backup_s3_region: Option<String>,
    pub db_backup_s3_bucket: Option<String>,
    pub db_backup_s3_key: Option<String>,
    /// Certificate for the load balancer's TLS listener, if any.
    pub nlb_acm_certificate_arn: Option<String>,
    /// Whether machines ship their system logs; on unless disabled.
    pub instance_system_logs: Option<bool>,
    /// Whether machines ship their system metrics; on unless disabled.
    pub instance_system_metrics: Option<bool>,
}

impl Resources {
    /// Resources with nothing configured: log and metric shipping are on,
    /// everything else is empty.
    pub fn default() -> (r: Self)
        ensures
            r.region@ == Seq::<char>::empty(),
            r.s3_bucket@ == Seq::<char>::empty(),
            r.db_backup_s3_region is None,
            r.db_backup_s3_bucket is None,
            r.db_backup_s3_key is None,
            r.nlb_acm_certificate_arn is None,
            r.instance_system_logs == Some(true),
            r.instance_system_metrics == Some(true),
    {
        Self {
            region: String::new(),
            s3_bucket: String::new(),
            db_backup_s3_region: None,
            db_backup_s3_bucket: None,
            db_backup_s3_key: None,
            nlb_acm_certificate_arn: None,
            instance_system_logs: Some(true),
            instance_system_metrics: Some(true),
        }
    }
}

} // verus!
