# blaze_rs

The native side of an HDFS single-file object store that a JVM host drives
over JNI, written in Verus.

- `src/` is the verified library:
  - `hdfs_object_store` — the store, the per-file object reader and the
    read cursor. Contracts fix where each cursor starts, that every reader
    shares the opened stream, the offset handed to the stream, and how a
    completed read moves the cursor. `lemma_reads_stay_contiguous` proves
    that reads through one cursor cover the file without gaps or overlap.
  - `jni_bridge` — the table of Java classes and members that the bridge
    binds (binary names, JNI descriptors, static or not, expected return
    types), and the exception that a panicking native call turns into.
- `app/` holds the JNI lookups and calls, the DataFusion object-store traits
  and the `callNative` entry point; it reads every name and descriptor from
  the library.
- `tests/` runs the library on concrete values.
