use pen::any::{Any, TypeInformation};
use pen::tcp::{TcpAcceptedStream, TcpStream};

#[test]
fn accepted_stream_keeps_stream_and_address() {
    let stream = TcpStream::new(Any::new(TypeInformation { tag: 3 }, 7));
    let accepted = TcpAcceptedStream::new(stream, b"127.0.0.1:80".to_vec());

    assert_eq!(
        accepted.stream().to_any().type_information(),
        TypeInformation { tag: 3 }
    );
    assert_eq!(*accepted.stream().to_any().payload(), 7);
    assert_eq!(accepted.address(), &b"127.0.0.1:80".to_vec());
}
