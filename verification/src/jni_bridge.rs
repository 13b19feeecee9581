use vstd::prelude::*;

verus! {

/// A primitive Java type.
#[derive(Clone, Copy, PartialEq, Eq, Structural)]
pub enum PrimitiveKind {
    Boolean,
    Byte,
    Char,
    Double,
    Float,
    Int,
    Long,
    Short,
    Void,
}

/// The type that the bridge expects a bound method to return.
#[derive(Clone, Copy)]
pub enum ReturnType {
    Primitive(PrimitiveKind),
    /// An object of the class with this binary name.
    Object(&'static str),
}

/// One method (or constructor) of a Java class that the bridge looks up.
pub struct MethodBinding {
    pub name: &'static str,
    /// JNI type descriptor of the method.
    pub signature: &'static str,
    /// Looked up as a static method rather than an instance one.
    pub is_static: bool,
    /// What calls through the binding expect back; constructors have none.
    pub ret: Option<ReturnType>,
}

/// A Java class and the members of it that the bridge binds, in order.
pub struct ClassBinding {
    pub class_path: &'static str,
    pub methods: Vec<MethodBinding>,
}

/// `m` binds the member `name` with descriptor `signature`, statically or not.
pub open spec fn binds(m: MethodBinding, name: &str, signature: &str, is_static: bool) -> bool {
    &&& m.name@ == name@
    &&& m.signature@ == signature@
    &&& m.is_static == is_static
}

/// `m` expects an object of class `class_path` back.
pub open spec fn returns_object(m: MethodBinding, class_path: &str) -> bool {
    m.ret matches Some(ReturnType::Object(c)) && c@ == class_path@
}

/// `m` expects the primitive `p` back.
pub open spec fn returns_primitive(m: MethodBinding, p: PrimitiveKind) -> bool {
    m.ret == Some(ReturnType::Primitive(p))
}

/// Binary name of the bridge class on the JVM side.
pub const JNI_BRIDGE_SIG_TYPE: &'static str = "org/apache/spark/sql/blaze/JniBridge";

/// The bridge class on the JVM side.
pub fn jni_bridge() -> (b: ClassBinding)
    ensures
        b.class_path@ == "org/apache/spark/sql/blaze/JniBridge"@,
        b.methods@.len() == 2,
        binds(
            b.methods@[0],
            "getHDFSFileSystem",
            "()Lorg/apache/hadoop/fs/FileSystem;",
            true,
        ),
        returns_object(b.methods@[0], "org/apache/hadoop/fs/FileSystem"),
        binds(
            b.methods@[1],
            "getResource",
            "(Ljava/lang/String;)Ljava/lang/Object;",
            true,
        ),
        returns_object(b.methods@[1], "org/apache/hadoop/fs/FileSystem"),
{
    ClassBinding {
        class_path: JNI_BRIDGE_SIG_TYPE,
        methods: vec![
            MethodBinding {
                name: "getHDFSFileSystem",
                signature: "()Lorg/apache/hadoop/fs/FileSystem;",
                is_static: true,
                ret: Some(ReturnType::Object(HADOOP_FILE_SYSTEM_SIG_TYPE)),
            },
            MethodBinding {
                name: "getResource",
                signature: "(Ljava/lang/String;)Ljava/lang/Object;",
                is_static: true,
                ret: Some(ReturnType::Object(HADOOP_FILE_SYSTEM_SIG_TYPE)),
            },
        ],
    }
}

/// Binary name of the class that `java_nio_seekable_byte_channel` binds.
pub const JAVA_NIO_SEEKABLE_BYTE_CHANNEL_SIG_TYPE: &'static str = "java/nio/channels/SeekableByteChannel";

/// The channel that native code reads shuffle segments through.
pub fn java_nio_seekable_byte_channel() -> (b: ClassBinding)
    ensures
        b.class_path@ == "java/nio/channels/SeekableByteChannel"@,
        b.methods@.len() == 3,
        binds(b.methods@[0], "read", "(Ljava/nio/ByteBuffer;)I", false),
        returns_primitive(b.methods@[0], PrimitiveKind::Int),
        binds(b.methods@[1], "position", "(J)Ljava/nio/channels/SeekableByteChannel;", false),
        returns_object(b.methods@[1], "java/nio/channels/SeekableByteChannel"),
        binds(b.methods@[2], "size", "()J", false),
        returns_primitive(b.methods@[2], PrimitiveKind::Long),
{
    ClassBinding {
        class_path: JAVA_NIO_SEEKABLE_BYTE_CHANNEL_SIG_TYPE,
        methods: vec![
            MethodBinding {
                name: "read",
                signature: "(Ljava/nio/ByteBuffer;)I",
                is_static: false,
                ret: Some(ReturnType::Primitive(PrimitiveKind::Int)),
            },
            MethodBinding {
                name: "position",
                signature: "(J)Ljava/nio/channels/SeekableByteChannel;",
                is_static: false,
                ret: Some(ReturnType::Object(JAVA_NIO_SEEKABLE_BYTE_CHANNEL_SIG_TYPE)),
            },
            MethodBinding {
                name: "size",
                signature: "()J",
                is_static: false,
                ret: Some(ReturnType::Primitive(PrimitiveKind::Long)),
            },
        ],
    }
}

/// Binary name of the class that `hadoop_file_system` binds.
pub const HADOOP_FILE_SYSTEM_SIG_TYPE: &'static str = "org/apache/hadoop/fs/FileSystem";

/// Hadoop's file system, which opens the files to read.
pub fn hadoop_file_system() -> (b: ClassBinding)
    ensures
        b.class_path@ == "org/apache/hadoop/fs/FileSystem"@,
        b.methods@.len() == 2,
        binds(b.methods@[0], "getFileStatus", "(Lorg/apache/hadoop/fs/Path;)Lorg/apache/hadoop/fs/FileStatus;", false),
        returns_object(b.methods@[0], "org/apache/hadoop/fs/FileStatus"),
        binds(b.methods@[1], "open", "(Lorg/apache/hadoop/fs/Path;)Lorg/apache/hadoop/fs/FSDataInputStream;", false),
        returns_object(b.methods@[1], "org/apache/hadoop/fs/FSDataInputStream"),
{
    ClassBinding {
        class_path: HADOOP_FILE_SYSTEM_SIG_TYPE,
        methods: vec![
            MethodBinding {
                name: "getFileStatus",
                signature: "(Lorg/apache/hadoop/fs/Path;)Lorg/apache/hadoop/fs/FileStatus;",
                is_static: false,
                ret: Some(ReturnType::Object(HADOOP_FILE_STATUS_SIG_TYPE)),
            },
            MethodBinding {
                name: "open",
                signature: "(Lorg/apache/hadoop/fs/Path;)Lorg/apache/hadoop/fs/FSDataInputStream;",
                is_static: false,
                ret: Some(ReturnType::Object(HADOOP_FS_DATA_INPUT_STREAM_SIG_TYPE)),
            },
        ],
    }
}

/// Binary name of the class that `hadoop_path` binds.
pub const HADOOP_PATH_SIG_TYPE: &'static str = "org/apache/hadoop/fs/Path";

/// Hadoop's path, built from a string by its constructor.
pub fn hadoop_path() -> (b: ClassBinding)
    ensures
        b.class_path@ == "org/apache/hadoop/fs/Path"@,
        b.methods@.len() == 1,
        binds(b.methods@[0], "<init>", "(Ljava/lang/String;)V", false),
        b.methods@[0].ret is None,
{
    ClassBinding {
        class_path: HADOOP_PATH_SIG_TYPE,
        methods: vec![
            MethodBinding {
                name: "<init>",
                signature: "(Ljava/lang/String;)V",
                is_static: false,
                ret: None,
            },
        ],
    }
}

/// Binary name of the class that `hadoop_file_status` binds.
pub const HADOOP_FILE_STATUS_SIG_TYPE: &'static str = "org/apache/hadoop/fs/FileStatus";

/// Hadoop's file status, which knows a file's length.
pub fn hadoop_file_status() -> (b: ClassBinding)
    ensures
        b.class_path@ == "org/apache/hadoop/fs/FileStatus"@,
        b.methods@.len() == 1,
        binds(b.methods@[0], "getLen", "()J", false),
        returns_primitive(b.methods@[0], PrimitiveKind::Long),
{
    ClassBinding {
        class_path: HADOOP_FILE_STATUS_SIG_TYPE,
        methods: vec![
            MethodBinding {
                name: "getLen",
                signature: "()J",
                is_static: false,
                ret: Some(ReturnType::Primitive(PrimitiveKind::Long)),
            },
        ],
    }
}

/// Binary name of the class that `hadoop_fs_data_input_stream` binds.
pub const HADOOP_FS_DATA_INPUT_STREAM_SIG_TYPE: &'static str = "org/apache/hadoop/fs/FSDataInputStream";

/// Hadoop's input stream over one opened file.
pub fn hadoop_fs_data_input_stream() -> (b: ClassBinding)
    ensures
        b.class_path@ == "org/apache/hadoop/fs/FSDataInputStream"@,
        b.methods@.len() == 2,
        binds(b.methods@[0], "seek", "(J)V", false),
        returns_primitive(b.methods@[0], PrimitiveKind::Long),
        binds(b.methods@[1], "read", "(Ljava/nio/ByteBuffer;)I", false),
        returns_primitive(b.methods@[1], PrimitiveKind::Int),
{
    ClassBinding {
        class_path: HADOOP_FS_DATA_INPUT_STREAM_SIG_TYPE,
        methods: vec![
            MethodBinding {
                name: "seek",
                signature: "(J)V",
                is_static: false,
                ret: Some(ReturnType::Primitive(PrimitiveKind::Long)),
            },
            MethodBinding {
                name: "read",
                signature: "(Ljava/nio/ByteBuffer;)I",
                is_static: false,
                ret: Some(ReturnType::Primitive(PrimitiveKind::Int)),
            },
        ],
    }
}

/// Binary name of the class that `java_list` binds.
pub const JAVA_LIST_SIG_TYPE: &'static str = "java/util/List";

/// `java.util.List`, read by index.
pub fn java_list() -> (b: ClassBinding)
    ensures
        b.class_path@ == "java/util/List"@,
        b.methods@.len() == 2,
        binds(b.methods@[0], "size", "()I", false),
        returns_primitive(b.methods@[0], PrimitiveKind::Int),
        binds(b.methods@[1], "get", "(I)Ljava/lang/Object;", false),
        returns_object(b.methods@[1], "java/lang/Object"),
{
    ClassBinding {
        class_path: JAVA_LIST_SIG_TYPE,
        methods: vec![
            MethodBinding {
                name: "size",
                signature: "()I",
                is_static: false,
                ret: Some(ReturnType::Primitive(PrimitiveKind::Int)),
            },
            MethodBinding {
                name: "get",
                signature: "(I)Ljava/lang/Object;",
                is_static: false,
                ret: Some(ReturnType::Object("java/lang/Object")),
            },
        ],
    }
}

/// Binary name of the class that `scala_iterator` binds.
pub const SCALA_ITERATOR_SIG_TYPE: &'static str = "scala/collection/Iterator";

/// Scala's iterator, walked with `hasNext` and `next`.
pub fn scala_iterator() -> (b: ClassBinding)
    ensures
        b.class_path@ == "scala/collection/Iterator"@,
        b.methods@.len() == 2,
        binds(b.methods@[0], "hasNext", "()Z", false),
        returns_primitive(b.methods@[0], PrimitiveKind::Boolean),
        binds(b.methods@[1], "next", "()Ljava/lang/Object;", false),
        returns_object(b.methods@[1], "java/lang/Object"),
{
    ClassBinding {
        class_path: SCALA_ITERATOR_SIG_TYPE,
        methods: vec![
            MethodBinding {
                name: "hasNext",
                signature: "()Z",
                is_static: false,
                ret: Some(ReturnType::Primitive(PrimitiveKind::Boolean)),
            },
            MethodBinding {
                name: "next",
                signature: "()Ljava/lang/Object;",
                is_static: false,
                ret: Some(ReturnType::Object("java/lang/Object")),
            },
        ],
    }
}

/// Binary name of the class that `scala_tuple2` binds.
pub const SCALA_TUPLE2_SIG_TYPE: &'static str = "scala/Tuple2";

/// Scala's pair, read through its two projections.
pub fn scala_tuple2() -> (b: ClassBinding)
    ensures
        b.class_path@ == "scala/Tuple2"@,
        b.methods@.len() == 2,
        binds(b.methods@[0], "_1", "()Ljava/lang/Object;", false),
        returns_object(b.methods@[0], "java/lang/Object"),
        binds(b.methods@[1], "_2", "()Ljava/lang/Object;", false),
        returns_object(b.methods@[1], "java/lang/Object"),
{
    ClassBinding {
        class_path: SCALA_TUPLE2_SIG_TYPE,
        methods: vec![
            MethodBinding {
                name: "_1",
                signature: "()Ljava/lang/Object;",
                is_static: false,
                ret: Some(ReturnType::Object("java/lang/Object")),
            },
            MethodBinding {
                name: "_2",
                signature: "()Ljava/lang/Object;",
                is_static: false,
                ret: Some(ReturnType::Object("java/lang/Object")),
            },
        ],
    }
}

/// Binary name of the class that `spark_managed_buffer` binds.
pub const SPARK_MANAGED_BUFFER_SIG_TYPE: &'static str = "org/apache/spark/network/buffer/ManagedBuffer";

/// Spark's managed buffer, read as one NIO byte buffer.
pub fn spark_managed_buffer() -> (b: ClassBinding)
    ensures
        b.class_path@ == "org/apache/spark/network/buffer/ManagedBuffer"@,
        b.methods@.len() == 1,
        binds(b.methods@[0], "nioByteBuffer", "()Ljava/nio/ByteBuffer;", false),
        returns_object(b.methods@[0], "java/nio/ByteBuffer"),
{
    ClassBinding {
        class_path: SPARK_MANAGED_BUFFER_SIG_TYPE,
        methods: vec![
            MethodBinding {
                name: "nioByteBuffer",
                signature: "()Ljava/nio/ByteBuffer;",
                is_static: false,
                ret: Some(ReturnType::Object("java/nio/ByteBuffer")),
            },
        ],
    }
}

/// Binary name of the class that `spark_blaze_converters` binds.
pub const SPARK_BLAZE_CONVERTERS_SIG_TYPE: &'static str = "org/apache/spark/sql/blaze/execution/Converters";

/// The converters that split a managed buffer into segment channels.
pub fn spark_blaze_converters() -> (b: ClassBinding)
    ensures
        b.class_path@ == "org/apache/spark/sql/blaze/execution/Converters"@,
        b.methods@.len() == 1,
        binds(b.methods@[0], "readManagedBufferToSegmentByteChannelsAsJava", "(Lorg/apache/spark/network/buffer/ManagedBuffer;)Ljava/util/List;", true),
        returns_object(b.methods@[0], "java/util/List"),
{
    ClassBinding {
        class_path: SPARK_BLAZE_CONVERTERS_SIG_TYPE,
        methods: vec![
            MethodBinding {
                name: "readManagedBufferToSegmentByteChannelsAsJava",
                signature: "(Lorg/apache/spark/network/buffer/ManagedBuffer;)Ljava/util/List;",
                is_static: true,
                ret: Some(ReturnType::Object(JAVA_LIST_SIG_TYPE)),
            },
        ],
    }
}
/// `JniBridge.readFSDataInputStream(stream, buffer, position)`: fills the
/// buffer from the opened stream, reading at the position, and returns how
/// many bytes it read.
pub fn jni_bridge_read_fs_data_input_stream() -> (m: MethodBinding)
    ensures
        binds(
            m,
            "readFSDataInputStream",
            "(Lorg/apache/hadoop/fs/FSDataInputStream;Ljava/nio/ByteBuffer;J)I",
            true,
        ),
        returns_primitive(m, PrimitiveKind::Int),
{
    MethodBinding {
        name: "readFSDataInputStream",
        signature: "(Lorg/apache/hadoop/fs/FSDataInputStream;Ljava/nio/ByteBuffer;J)I",
        is_static: true,
        ret: Some(ReturnType::Primitive(PrimitiveKind::Int)),
    }
}

/// `FSDataInputStream.close()`, called on an opened stream once nothing
/// reads it any more.
pub fn hadoop_fs_data_input_stream_close() -> (m: MethodBinding)
    ensures
        binds(m, "close", "()V", false),
        returns_primitive(m, PrimitiveKind::Void),
{
    MethodBinding {
        name: "close",
        signature: "()V",
        is_static: false,
        ret: Some(ReturnType::Primitive(PrimitiveKind::Void)),
    }
}

/// What a panic inside a native call carried.
pub enum PanicPayload {
    /// A formatted message.
    Text(String),
    /// A literal message.
    StaticText(&'static str),
    /// Anything else.
    Other,
}

/// The message that a failed native call reports to the JVM.
pub open spec fn spec_panic_message(payload: PanicPayload) -> Seq<char> {
    match payload {
        PanicPayload::Text(s) => s@,
        PanicPayload::StaticText(s) => s@,
        PanicPayload::Other => "Unknown blaze-rs exception"@,
    }
}

/// Picks the message of the exception that a panic in a native call is
/// turned into: the panic's own text where it carried one.
pub fn panic_message(payload: &PanicPayload) -> (msg: &str)
    ensures
        msg@ == spec_panic_message(*payload),
{
    match payload {
        PanicPayload::Text(s) => s.as_str(),
        PanicPayload::StaticText(s) => s,
        PanicPayload::Other => "Unknown blaze-rs exception",
    }
}

/// The class of the exception thrown into the JVM when a native call panics.
pub fn native_exception_class() -> (class_path: &'static str)
    ensures
        class_path@ == "java/lang/RuntimeException"@,
{
    "java/lang/RuntimeException"
}

} // verus!
