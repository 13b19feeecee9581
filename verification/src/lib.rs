//! Native side of the HDFS single-file object store: how readers over a
//! remote input stream keep their position, which Java members the JNI
//! bridge binds, and what message a failed native call reports.

pub mod hdfs_object_store;
pub mod jni_bridge;
