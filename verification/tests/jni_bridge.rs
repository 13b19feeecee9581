use blaze_rs::jni_bridge::{
    hadoop_file_status, hadoop_file_system, hadoop_fs_data_input_stream, hadoop_path, java_list,
    java_nio_seekable_byte_channel, jni_bridge, native_exception_class, panic_message, scala_iterator,
    scala_tuple2, spark_blaze_converters, spark_managed_buffer, ClassBinding, PanicPayload, PrimitiveKind,
    ReturnType, jni_bridge_read_fs_data_input_stream, hadoop_fs_data_input_stream_close,
    JNI_BRIDGE_SIG_TYPE, JAVA_NIO_SEEKABLE_BYTE_CHANNEL_SIG_TYPE, HADOOP_FILE_SYSTEM_SIG_TYPE,
    HADOOP_PATH_SIG_TYPE, HADOOP_FILE_STATUS_SIG_TYPE, HADOOP_FS_DATA_INPUT_STREAM_SIG_TYPE,
    JAVA_LIST_SIG_TYPE, SCALA_ITERATOR_SIG_TYPE, SCALA_TUPLE2_SIG_TYPE, SPARK_MANAGED_BUFFER_SIG_TYPE,
    SPARK_BLAZE_CONVERTERS_SIG_TYPE,
};

fn object(r: &Option<ReturnType>) -> &'static str {
    match r {
        Some(ReturnType::Object(c)) => c,
        _ => panic!("expected an object return type"),
    }
}

fn primitive(r: &Option<ReturnType>) -> PrimitiveKind {
    match r {
        Some(ReturnType::Primitive(p)) => *p,
        _ => panic!("expected a primitive return type"),
    }
}

fn members(b: &ClassBinding) -> Vec<(&'static str, &'static str, bool)> {
    b.methods.iter().map(|m| (m.name, m.signature, m.is_static)).collect()
}

#[test]
fn jni_bridge_binding() {
    let b = jni_bridge();
    assert_eq!(b.class_path, "org/apache/spark/sql/blaze/JniBridge");
    assert_eq!(
        members(&b),
        vec![
            ("getHDFSFileSystem", "()Lorg/apache/hadoop/fs/FileSystem;", true),
            ("getResource", "(Ljava/lang/String;)Ljava/lang/Object;", true),
        ]
    );
    assert_eq!(object(&b.methods[0].ret), "org/apache/hadoop/fs/FileSystem");
    assert_eq!(object(&b.methods[1].ret), "org/apache/hadoop/fs/FileSystem");
}

#[test]
fn seekable_byte_channel_binding() {
    let b = java_nio_seekable_byte_channel();
    assert_eq!(b.class_path, "java/nio/channels/SeekableByteChannel");
    assert_eq!(
        members(&b),
        vec![
            ("read", "(Ljava/nio/ByteBuffer;)I", false),
            ("position", "(J)Ljava/nio/channels/SeekableByteChannel;", false),
            ("size", "()J", false),
        ]
    );
    assert!(primitive(&b.methods[0].ret) == PrimitiveKind::Int);
    assert_eq!(object(&b.methods[1].ret), "java/nio/channels/SeekableByteChannel");
    assert!(primitive(&b.methods[2].ret) == PrimitiveKind::Long);
}

#[test]
fn hadoop_file_system_binding() {
    let b = hadoop_file_system();
    assert_eq!(b.class_path, "org/apache/hadoop/fs/FileSystem");
    assert_eq!(
        members(&b),
        vec![
            ("getFileStatus", "(Lorg/apache/hadoop/fs/Path;)Lorg/apache/hadoop/fs/FileStatus;", false),
            ("open", "(Lorg/apache/hadoop/fs/Path;)Lorg/apache/hadoop/fs/FSDataInputStream;", false),
        ]
    );
    assert_eq!(object(&b.methods[0].ret), hadoop_file_status().class_path);
    assert_eq!(object(&b.methods[1].ret), hadoop_fs_data_input_stream().class_path);
}

#[test]
fn hadoop_path_binding() {
    let b = hadoop_path();
    assert_eq!(b.class_path, "org/apache/hadoop/fs/Path");
    assert_eq!(members(&b), vec![("<init>", "(Ljava/lang/String;)V", false)]);
    assert!(b.methods[0].ret.is_none());
}

#[test]
fn hadoop_file_status_binding() {
    let b = hadoop_file_status();
    assert_eq!(b.class_path, "org/apache/hadoop/fs/FileStatus");
    assert_eq!(members(&b), vec![("getLen", "()J", false)]);
    assert!(primitive(&b.methods[0].ret) == PrimitiveKind::Long);
}

#[test]
fn hadoop_fs_data_input_stream_binding() {
    let b = hadoop_fs_data_input_stream();
    assert_eq!(b.class_path, "org/apache/hadoop/fs/FSDataInputStream");
    assert_eq!(
        members(&b),
        vec![("seek", "(J)V", false), ("read", "(Ljava/nio/ByteBuffer;)I", false)]
    );
    assert!(primitive(&b.methods[0].ret) == PrimitiveKind::Long);
    assert!(primitive(&b.methods[1].ret) == PrimitiveKind::Int);
}

#[test]
fn java_list_binding() {
    let b = java_list();
    assert_eq!(b.class_path, "java/util/List");
    assert_eq!(members(&b), vec![("size", "()I", false), ("get", "(I)Ljava/lang/Object;", false)]);
    assert!(primitive(&b.methods[0].ret) == PrimitiveKind::Int);
    assert_eq!(object(&b.methods[1].ret), "java/lang/Object");
}

#[test]
fn scala_iterator_binding() {
    let b = scala_iterator();
    assert_eq!(b.class_path, "scala/collection/Iterator");
    assert_eq!(members(&b), vec![("hasNext", "()Z", false), ("next", "()Ljava/lang/Object;", false)]);
    assert!(primitive(&b.methods[0].ret) == PrimitiveKind::Boolean);
    assert_eq!(object(&b.methods[1].ret), "java/lang/Object");
}

#[test]
fn scala_tuple2_binding() {
    let b = scala_tuple2();
    assert_eq!(b.class_path, "scala/Tuple2");
    assert_eq!(
        members(&b),
        vec![("_1", "()Ljava/lang/Object;", false), ("_2", "()Ljava/lang/Object;", false)]
    );
    assert_eq!(object(&b.methods[0].ret), "java/lang/Object");
    assert_eq!(object(&b.methods[1].ret), "java/lang/Object");
}

#[test]
fn spark_managed_buffer_binding() {
    let b = spark_managed_buffer();
    assert_eq!(b.class_path, "org/apache/spark/network/buffer/ManagedBuffer");
    assert_eq!(members(&b), vec![("nioByteBuffer", "()Ljava/nio/ByteBuffer;", false)]);
    assert_eq!(object(&b.methods[0].ret), "java/nio/ByteBuffer");
}

#[test]
fn spark_blaze_converters_binding() {
    let b = spark_blaze_converters();
    assert_eq!(b.class_path, "org/apache/spark/sql/blaze/execution/Converters");
    assert_eq!(
        members(&b),
        vec![(
            "readManagedBufferToSegmentByteChannelsAsJava",
            "(Lorg/apache/spark/network/buffer/ManagedBuffer;)Ljava/util/List;",
            true
        )]
    );
    assert_eq!(object(&b.methods[0].ret), java_list().class_path);
}

#[test]
fn panic_message_from_formatted_text() {
    let p = PanicPayload::Text(format!("task {} failed", 3));
    assert_eq!(panic_message(&p), "task 3 failed");
}

#[test]
fn panic_message_from_literal() {
    let p = PanicPayload::StaticText("out of memory");
    assert_eq!(panic_message(&p), "out of memory");
}

#[test]
fn panic_message_for_unknown_payload() {
    assert_eq!(panic_message(&PanicPayload::Other), "Unknown blaze-rs exception");
}

#[test]
fn native_exception_is_runtime_exception() {
    assert_eq!(native_exception_class(), "java/lang/RuntimeException");
}

#[test]
fn read_fs_data_input_stream_binding() {
    let m = jni_bridge_read_fs_data_input_stream();
    assert_eq!(m.name, "readFSDataInputStream");
    assert_eq!(m.signature, "(Lorg/apache/hadoop/fs/FSDataInputStream;Ljava/nio/ByteBuffer;J)I");
    assert!(m.is_static);
    assert!(primitive(&m.ret) == PrimitiveKind::Int);
}

#[test]
fn fs_data_input_stream_close_binding() {
    let m = hadoop_fs_data_input_stream_close();
    assert_eq!(m.name, "close");
    assert_eq!(m.signature, "()V");
    assert!(!m.is_static);
    assert!(primitive(&m.ret) == PrimitiveKind::Void);
}

#[test]
fn sig_types_are_the_bound_class_paths() {
    assert_eq!(JNI_BRIDGE_SIG_TYPE, jni_bridge().class_path);
    assert_eq!(JAVA_NIO_SEEKABLE_BYTE_CHANNEL_SIG_TYPE, java_nio_seekable_byte_channel().class_path);
    assert_eq!(HADOOP_FILE_SYSTEM_SIG_TYPE, hadoop_file_system().class_path);
    assert_eq!(HADOOP_PATH_SIG_TYPE, hadoop_path().class_path);
    assert_eq!(HADOOP_FILE_STATUS_SIG_TYPE, hadoop_file_status().class_path);
    assert_eq!(HADOOP_FS_DATA_INPUT_STREAM_SIG_TYPE, hadoop_fs_data_input_stream().class_path);
    assert_eq!(JAVA_LIST_SIG_TYPE, java_list().class_path);
    assert_eq!(SCALA_ITERATOR_SIG_TYPE, scala_iterator().class_path);
    assert_eq!(SCALA_TUPLE2_SIG_TYPE, scala_tuple2().class_path);
    assert_eq!(SPARK_MANAGED_BUFFER_SIG_TYPE, spark_managed_buffer().class_path);
    assert_eq!(SPARK_BLAZE_CONVERTERS_SIG_TYPE, spark_blaze_converters().class_path);
    assert_eq!(SPARK_BLAZE_CONVERTERS_SIG_TYPE, "org/apache/spark/sql/blaze/execution/Converters");
}
