//! Fixed parts of the redirection pages.
use vstd::prelude::*;

verus! {

/// The animation shown while the customer waits.
pub const ANIMATION_DATA: &'static str = r#"{"v":"4.8.0","meta":{"g":"LottieFiles AE 3.1.1","a":"","k":"","d":"","tc":""},"fr":29.9700012207031,"ip":0,"op":31.0000012626559,"w":400,"h":250,"nm":"loader_shape","ddd":0,"assets":[],"layers":[{"ddd":0,"ind":1,"ty":4,"nm":"circle 2","sr":1,"ks":{"o":{"a":0,"k":100,"ix":11},"r":{"a":0,"k":0,"ix":10},"p":{"a":0,"k":[278.25,202.671,0],"ix":2},"a":{"a":0,"k":[23.72,23.72,0],"ix":1},"s":{"a":0,"k":[100,100,100],"ix":6}},"ao":0,"shapes":[{"ty":"gr","it":[{"ind":0,"ty":"sh","ix":1,"ks":{"a":0,"k":{"i":[[12.935,0],[0,-12.936],[-12.935,0],[0,12.935]],"o":[[-12.952,0],[0,12.935],[12.935,0],[0,-12.936]],"v":[[0,-23.471],[-23.47,0.001],[0,23.471],[23.47,0.001]],"c":true},"ix":2},"nm":"Path 1","mn":"ADBE Vector Shape - Group","hd":false},{"ty":"fl","c":{"a":0,"k":[0,0.427451010311,0.976470648074,1],"ix":4},"o":{"a":1,"k":[{"i":{"x":[0.667],"y":[1]},"o":{"x":[0.333],"y":[0]},"t":10,"s":[10]},{"i":{"x":[0.667],"y":[1]},"o":{"x":[0.333],"y":[0]},"t":19.99,"s":[100]},{"t":29.9800012211104,"s":[10]}],"ix":5},"r":1,"bm":0,"nm":"Fill 1","mn":"ADBE Vector Graphic - Fill","hd":false},{"ty":"tr","p":{"a":0,"k":[23.72,23.721],"ix":2},"a":{"a":0,"k":[0,0],"ix":1},"s":{"a":0,"k":[100,100],"ix":3},"r":{"a":0,"k":0,"ix":6},"o":{"a":0,"k":100,"ix":7},"sk":{"a":0,"k":0,"ix":4},"sa":{"a":0,"k":0,"ix":5},"nm":"Transform"}],"nm":"Group 1","np":2,"cix":2,"bm":0,"ix":1,"mn":"ADBE Vector Group","hd":false}],"ip":0,"op":48.0000019550801,"st":0,"bm":0},{"ddd":0,"ind":2,"ty":4,"nm":"square 2","sr":1,"ks":{"o":{"a":0,"k":100,"ix":11},"r":{"a":0,"k":0,"ix":10},"p":{"a":0,"k":[196.25,201.271,0],"ix":2},"a":{"a":0,"k":[22.028,22.03,0],"ix":1},"s":{"a":0,"k":[100,100,100],"ix":6}},"ao":0,"shapes":[{"ty":"gr","it":[{"ind":0,"ty":"sh","ix":1,"ks":{"a":0,"k":{"i":[[1.914,0],[0,0],[0,-1.914],[0,0],[-1.914,0],[0,0],[0,1.914],[0,0]],"o":[[0,0],[-1.914,0],[0,0],[0,1.914],[0,0],[1.914,0],[0,0],[0,-1.914]],"v":[[18.313,-21.779],[-18.312,-21.779],[-21.779,-18.313],[-21.779,18.314],[-18.312,21.779],[18.313,21.779],[21.779,18.314],[21.779,-18.313]],"c":true},"ix":2},"nm":"Path 1","mn":"ADBE Vector Shape - Group","hd":false},{"ty":"fl","c":{"a":0,"k":[0,0.427451010311,0.976470648074,1],"ix":4},"o":{"a":1,"k":[{"i":{"x":[0.667],"y":[1]},"o":{"x":[0.333],"y":[0]},"t":5,"s":[10]},{"i":{"x":[0.667],"y":[1]},"o":{"x":[0.333],"y":[0]},"t":14.99,"s":[100]},{"t":24.9800010174563,"s":[10]}],"ix":5},"r":1,"bm":0,"nm":"Fill 1","mn":"ADBE Vector Graphic - Fill","hd":false},{"ty":"tr","p":{"a":0,"k":[22.028,22.029],"ix":2},"a":{"a":0,"k":[0,0],"ix":1},"s":{"a":0,"k":[100,100],"ix":3},"r":{"a":0,"k":0,"ix":6},"o":{"a":0,"k":100,"ix":7},"sk":{"a":0,"k":0,"ix":4},"sa":{"a":0,"k":0,"ix":5},"nm":"Transform"}],"nm":"Group 1","np":2,"cix":2,"bm":0,"ix":1,"mn":"ADBE Vector Group","hd":false}],"ip":0,"op":47.0000019143492,"st":0,"bm":0},{"ddd":0,"ind":3,"ty":4,"nm":"Triangle 2","sr":1,"ks":{"o":{"a":0,"k":100,"ix":11},"r":{"a":0,"k":0,"ix":10},"p":{"a":0,"k":[116.25,200.703,0],"ix":2},"a":{"a":0,"k":[27.11,21.243,0],"ix":1},"s":{"a":0,"k":[100,100,100],"ix":6}},"ao":0,"shapes":[{"ty":"gr","it":[{"ind":0,"ty":"sh","ix":1,"ks":{"a":0,"k":{"i":[[0,0],[0.558,-0.879],[0,0],[-1.133,0],[0,0],[0.609,0.947],[0,0]],"o":[[-0.558,-0.879],[0,0],[-0.609,0.947],[0,0],[1.133,0],[0,0],[0,0]],"v":[[1.209,-20.114],[-1.192,-20.114],[-26.251,18.795],[-25.051,20.993],[25.051,20.993],[26.251,18.795],[1.192,-20.114]],"c":true},"ix":2},"nm":"Path 1","mn":"ADBE Vector Shape - Group","hd":false},{"ty":"fl","c":{"a":0,"k":[0,0.427451010311,0.976470648074,1],"ix":4},"o":{"a":1,"k":[{"i":{"x":[0.667],"y":[1]},"o":{"x":[0.333],"y":[0]},"t":0,"s":[10]},{"i":{"x":[0.667],"y":[1]},"o":{"x":[0.333],"y":[0]},"t":9.99,"s":[100]},{"t":19.9800008138021,"s":[10]}],"ix":5},"r":1,"bm":0,"nm":"Fill 1","mn":"ADBE Vector Graphic - Fill","hd":false},{"ty":"tr","p":{"a":0,"k":[27.11,21.243],"ix":2},"a":{"a":0,"k":[0,0],"ix":1},"s":{"a":0,"k":[100,100],"ix":3},"r":{"a":0,"k":0,"ix":6},"o":{"a":0,"k":100,"ix":7},"sk":{"a":0,"k":0,"ix":4},"sa":{"a":0,"k":0,"ix":5},"nm":"Transform"}],"nm":"Group 1","np":2,"cix":2,"bm":0,"ix":1,"mn":"ADBE Vector Group","hd":false}],"ip":0,"op":48.0000019550801,"st":0,"bm":0}],"markers":[]}"#;

/// Part 1 of the text for `RedirectForm::Form`.
pub const FORM_1: &'static str = r#"<!DOCTYPE html><html><meta name="viewport" content="width=device-width, initial-scale=1"><head><style>

                    </style>
                <style>
                    #loader1 {
                        width: 500px,
                    }
                    @media (max-width: 600px) {
                        #loader1 {
                            width: 200px
                        }
                    }
                </style>
                </head><body style="background-color: #ffffff; padding: 20px; font-family: Arial, Helvetica, Sans-Serif;"><div id="loader1" class="lottie" style="height: 150px; display: block; position: relative; margin-left: auto; margin-right: auto;"></div><script src="https://cdnjs.cloudflare.com/ajax/libs/bodymovin/5.7.4/lottie.min.js"></script>
                <script>
                var anime = bodymovin.loadAnimation({
                    container: document.getElementById('loader1'),
                    renderer: 'svg',
                    loop: true,
                    autoplay: true,
                    name: 'hyperswitch loader',
                    animationData: "#;

/// Part 2 of the text for `RedirectForm::Form`.
pub const FORM_2: &'static str = r#"
                })
                </script>
                <h3 style="text-align: center;">Please wait while we process your payment...</h3>"#;

/// What stands before the address of a form.
pub const FORM_ACTION: &'static str = r#"<form id="payment_form" action=""#;

/// Part 3 of the text for `RedirectForm::Form`.
pub const FORM_3: &'static str = r#"" method=""#;

/// Part 4 of the text for `RedirectForm::Form`.
pub const FORM_4: &'static str = r#"">"#;

/// Part 5 of the text for `RedirectForm::Form`.
pub const FORM_5: &'static str = r#"</form>
                    <script type="text/javascript"> "#;

/// Part 6 of the text for `RedirectForm::Form`.
pub const FORM_6: &'static str = r#"
                    var frm = document.getElementById("payment_form");
                    var formFields = frm.querySelectorAll("input");

                    if (frm.method.toUpperCase() === "GET" && formFields.length === 0) {
                        window.setTimeout(function () {
                            window.location.href = frm.action;
                        }, 300);
                    } else {
                        window.setTimeout(function () {
                            frm.submit();
                        }, 300);
                    }
                    </script>
                    </body></html>"#;

/// Part 1 of the text for `RedirectForm::Html`.
pub const HTML_1: &'static str = r#" <script>"#;

/// Part 2 of the text for `RedirectForm::Html`.
pub const HTML_2: &'static str = r#"</script>"#;

/// Part 1 of the text for `RedirectForm::BlueSnap`.
pub const BLUESNAP_1: &'static str = r#"<!DOCTYPE html><html><head><meta name="viewport" content="width=device-width, initial-scale=1"><script src=""#;

/// Part 2 of the text for `RedirectForm::BlueSnap`.
pub const BLUESNAP_2: &'static str = r#"web-sdk/5/bluesnap.js"></script></head><body style="background-color: #ffffff; padding: 20px; font-family: Arial, Helvetica, Sans-Serif;"><div id="loader1" class="lottie" style="height: 150px; display: block; position: relative; margin-top: 150px; margin-left: auto; margin-right: auto;"></div><script src="https://cdnjs.cloudflare.com/ajax/libs/bodymovin/5.7.4/lottie.min.js"></script>
                        <script>
                        var anime = bodymovin.loadAnimation({
                            container: document.getElementById('loader1'),
                            renderer: 'svg',
                            loop: true,
                            autoplay: true,
                            name: 'hyperswitch loader',
                            animationData: "#;

/// Part 3 of the text for `RedirectForm::BlueSnap`.
pub const BLUESNAP_3: &'static str = r#"
                        })
                        </script>
                        <h3 style="text-align: center;">Please wait while we process your payment...</h3></body><script>
                    "#;

/// Part 4 of the text for `RedirectForm::BlueSnap`.
pub const BLUESNAP_4: &'static str = r#"
                    "#;

/// What stands before the token that BlueSnap is set up with.
pub const BLUESNAP_SETUP: &'static str = r#"bluesnap.threeDsPaymentsSetup(""#;

/// Part 5 of the text for `RedirectForm::BlueSnap`.
pub const BLUESNAP_5: &'static str = r#"",
                    function(sdkResponse) {
                        // console.log(sdkResponse);
                        var f = document.createElement('form');
                        f.action=window.location.pathname.replace(/payments\/redirect\/(\w+)\/(\w+)\/\w+/, "#;

/// What stands before the token in the address that BlueSnap sends the customer to.
pub const BLUESNAP_TOKEN_QUERY: &'static str = r#""payments/$1/$2/redirect/complete/bluesnap?paymentToken="#;

/// Part 6 of the text for `RedirectForm::BlueSnap`.
pub const BLUESNAP_6: &'static str = r#"");
                        f.method='POST';
                        var i=document.createElement('input');
                        i.type='hidden';
                        i.name='authentication_response';
                        i.value=JSON.stringify(sdkResponse);
                        f.appendChild(i);
                        document.body.appendChild(f);
                        f.submit();
                    });
                    "#;

/// Part 7 of the text for `RedirectForm::BlueSnap`.
pub const BLUESNAP_7: &'static str = r#"
                    bluesnap.threeDsPaymentsSubmitData(saveCardDirectly);
                </script>
                </html>"#;

/// Part 1 of the text for the stored card script.
pub const CARD_1: &'static str = r#"var saveCardDirectly={cvv: ""#;

/// Part 2 of the text for the stored card script.
pub const CARD_2: &'static str = r#"",amount: "#;

/// Part 3 of the text for the stored card script.
pub const CARD_3: &'static str = r#",currency: ""#;

/// Part 4 of the text for the stored card script.
pub const CARD_4: &'static str = r#""};"#;

/// Part 1 of the text for `RedirectForm::CybersourceAuthSetup`.
pub const AUTH_SETUP_1: &'static str = r#"<!DOCTYPE html><html><head><meta name="viewport" content="width=device-width, initial-scale=1"></head>"#;

/// Part 2 of the text for `RedirectForm::CybersourceAuthSetup`.
pub const AUTH_SETUP_2: &'static str = r#"<iframe id="cardinal_collection_iframe" name="collectionIframe" height="10" width="10" style="display: none;"></iframe>"#;

/// What stands before the address that collects device data.
pub const COLLECTION_ACTION: &'static str = r#"<form id="cardinal_collection_form" method="POST" target="collectionIframe" action=""#;

/// Part 3 of the text for `RedirectForm::CybersourceAuthSetup`.
pub const AUTH_SETUP_3: &'static str = r#"">
                <input id="cardinal_collection_form_input" type="hidden" name="JWT" value=""#;

/// Part 4 of the text for `RedirectForm::CybersourceAuthSetup`.
pub const AUTH_SETUP_4: &'static str = r#"">
              </form><script>
              window.onload = function() {
              var cardinalCollectionForm = document.querySelector('#cardinal_collection_form'); if(cardinalCollectionForm) cardinalCollectionForm.submit();
              }
              </script><script>
                "#;

/// Part 5 of the text for `RedirectForm::CybersourceAuthSetup`.
pub const AUTH_SETUP_5: &'static str = r#"
                window.addEventListener("message", function(event) {
                    if (event.origin === "https://centinelapistag.cardinalcommerce.com" || event.origin === "https://centinelapi.cardinalcommerce.com") {
                      window.location.href = window.location.pathname.replace(/payments\/redirect\/(\w+)\/(\w+)\/\w+/, "#;

/// What stands before the reference in the address that Cybersource sends the customer to.
pub const REFERENCE_QUERY: &'static str = r#""payments/$1/$2/redirect/complete/cybersource?referenceId="#;

/// Part 6 of the text for `RedirectForm::CybersourceAuthSetup`.
pub const AUTH_SETUP_6: &'static str = r#"");
                    }
                  }, false);
                </script>
                </html>"#;

/// Part 2 of the text for `RedirectForm::CybersourceConsumerAuth`.
pub const CONSUMER_AUTH_2: &'static str = r#"<form id="step-up-form" method="POST" action=""#;

/// Part 3 of the text for `RedirectForm::CybersourceConsumerAuth`.
pub const CONSUMER_AUTH_3: &'static str = r#"">
                <input type="hidden" name="JWT" value=""#;

/// Part 4 of the text for `RedirectForm::CybersourceConsumerAuth`.
pub const CONSUMER_AUTH_4: &'static str = r#"">
              </form><script>
              "#;

/// Part 5 of the text for `RedirectForm::CybersourceConsumerAuth`.
pub const CONSUMER_AUTH_5: &'static str = r#"
              window.onload = function() {
              var stepUpForm = document.querySelector('#step-up-form'); if(stepUpForm) stepUpForm.submit();
              }
              </script></html>"#;

/// Part 2 of the text for `RedirectForm::DeutschebankThreeDSChallengeFlow`.
pub const CHALLENGE_2: &'static str = r#"<form id="PaReqForm" method="POST" action=""#;

/// Part 3 of the text for `RedirectForm::DeutschebankThreeDSChallengeFlow`.
pub const CHALLENGE_3: &'static str = r#"">
                        <input type="hidden" name="creq" value=""#;

/// Part 4 of the text for `RedirectForm::DeutschebankThreeDSChallengeFlow`.
pub const CHALLENGE_4: &'static str = r#"">
                        </form><script>
                        "#;

/// Part 5 of the text for `RedirectForm::DeutschebankThreeDSChallengeFlow`.
pub const CHALLENGE_5: &'static str = r#"
                        window.onload = function() {
                        var paReqForm = document.querySelector('#PaReqForm'); if(paReqForm) paReqForm.submit();
                        }
                    </script></html>"#;

/// Part 1 of the text for `RedirectForm::Payme`.
pub const PAYME_1: &'static str = r#"<!DOCTYPE html><head><script src="https://cdn.paymeservice.com/hf/v1/hostedfields.js"></script></head><script>
                    "#;

/// Part 2 of the text for `RedirectForm::Payme`.
pub const PAYME_2: &'static str = r#"
                    var f = document.createElement('form');
                    f.action=window.location.pathname.replace(/payments\/redirect\/(\w+)\/(\w+)\/\w+/, "payments/$1/$2/redirect/complete/payme");
                    f.method='POST';
                    PayMe.clientData()
                    .then((data) => {
                        var i=document.createElement('input');
                        i.type='hidden';
                        i.name='meta_data';
                        i.value=data.hash;
                        f.appendChild(i);
                        document.body.appendChild(f);
                        f.submit();
                    })
                    .catch((error) => {
                        f.submit();
                    });
            </script>
                "#;

/// Part 1 of the text for `RedirectForm::Braintree`.
pub const BRAINTREE_1: &'static str = r#"<!DOCTYPE html><html><head><meta name="viewport" content="width=device-width, initial-scale=1"><script src="https://js.braintreegateway.com/web/3.97.1/js/three-d-secure.js"></script></head>"#;

/// Part 2 of the text for `RedirectForm::Braintree`.
pub const BRAINTREE_2: &'static str = r#"<script>
                                "#;

/// Part 3 of the text for `RedirectForm::Braintree`.
pub const BRAINTREE_3: &'static str = r#"
                                var my3DSContainer;
                                "#;

/// What stands before the token of the client.
pub const BRAINTREE_CLIENT: &'static str = r#"var clientToken = ""#;

/// Part 4 of the text for `RedirectForm::Braintree`.
pub const BRAINTREE_4: &'static str = r#"";
                                braintree.threeDSecure.create({
                                        authorization: clientToken,
                                        version: 2
                                    }, function(err, threeDs) {
                                        threeDs.verifyCard({
                                            "#;

/// What stands before the amount that Braintree verifies.
pub const BRAINTREE_AMOUNT: &'static str = r#"amount: ""#;

/// Part 5 of the text for `RedirectForm::Braintree`.
pub const BRAINTREE_5: &'static str = r#"",
                                            nonce: ""#;

/// Part 6 of the text for `RedirectForm::Braintree`.
pub const BRAINTREE_6: &'static str = r#"",
                                            bin: ""#;

/// Part 7 of the text for `RedirectForm::Braintree`.
pub const BRAINTREE_7: &'static str = r#"",
                                            addFrame: function(err, iframe) {
                                                my3DSContainer = document.createElement('div');
                                                my3DSContainer.appendChild(iframe);
                                                document.body.appendChild(my3DSContainer);
                                            },
                                            removeFrame: function() {
                                                if(my3DSContainer && my3DSContainer.parentNode) {
                                                    my3DSContainer.parentNode.removeChild(my3DSContainer);
                                                }
                                            },
                                            onLookupComplete: function(data, next) {
                                                // console.log("onLookup Complete", data);
                                                    next();
                                                }
                                            },
                                            function(err, payload) {
                                                if(err) {
                                                    console.error(err);
                                                    var f = document.createElement('form');
                                                    f.action=window.location.pathname.replace(/payments\/redirect\/(\w+)\/(\w+)\/\w+/, "payments/$1/$2/redirect/response/braintree");
                                                    var i = document.createElement('input');
                                                    i.type = 'hidden';
                                                    f.method='POST';
                                                    i.name = 'authentication_response';
                                                    i.value = JSON.stringify(err);
                                                    f.appendChild(i);
                                                    f.body = JSON.stringify(err);
                                                    document.body.appendChild(f);
                                                    f.submit();
                                                } else {
                                                    // console.log(payload);
                                                    var f = document.createElement('form');
                                                    "#;

/// What stands before the address that Braintree sends the customer to.
pub const BRAINTREE_ACTION: &'static str = r#"f.action=""#;

/// Part 8 of the text for `RedirectForm::Braintree`.
pub const BRAINTREE_8: &'static str = r#"";
                                                    var i = document.createElement('input');
                                                    i.type = 'hidden';
                                                    f.method='POST';
                                                    i.name = 'authentication_response';
                                                    i.value = JSON.stringify(payload);
                                                    f.appendChild(i);
                                                    f.body = JSON.stringify(payload);
                                                    document.body.appendChild(f);
                                                    f.submit();
                                                    }
                                                });
                                        }); </script></html>"#;

/// Part 1 of the text for `RedirectForm::Nmi`.
pub const NMI_1: &'static str = r#"<!DOCTYPE html><head><script src="https://secure.networkmerchants.com/js/v1/Gateway.js"></script></head><body style="background-color: #ffffff; padding: 20px; font-family: Arial, Helvetica, Sans-Serif;"><div id="loader-wrapper"><div id="loader1" class="lottie" style="height: 150px; display: block; position: relative; margin-top: 150px; margin-left: auto; margin-right: auto;"></div><script src="https://cdnjs.cloudflare.com/ajax/libs/bodymovin/5.7.4/lottie.min.js"></script>
                            <script>
                            var anime = bodymovin.loadAnimation({
                                container: document.getElementById('loader1'),
                                renderer: 'svg',
                                loop: true,
                                autoplay: true,
                                name: 'hyperswitch loader',
                                animationData: "#;

/// Part 2 of the text for `RedirectForm::Nmi`.
pub const NMI_2: &'static str = r#"
                            })
                            </script>
                            <h3 style="text-align: center;">Please wait while we process your payment...</h3></div><div id="threeds-wrapper" style="display: flex; width: 100%; height: 100vh; align-items: center; justify-content: center;"></div></body><script>
                    "#;

/// Part 3 of the text for `RedirectForm::Nmi`.
pub const NMI_3: &'static str = r#"
                    "#;

/// What stands before the key that the NMI script is started with.
pub const NMI_KEY: &'static str = r#"const gateway = Gateway.create('"#;

/// Part 4 of the text for `RedirectForm::Nmi`.
pub const NMI_4: &'static str = r#"');

                    // Initialize the ThreeDSService
                    const threeDS = gateway.get3DSecure();

                    const options = {
                        "#;

/// What stands before the id of the customer whose card is verified.
pub const NMI_OPTION: &'static str = r#"customerVaultId: '"#;

/// Part 5 of the text for `RedirectForm::Nmi`.
pub const NMI_5: &'static str = r#"',
                        currency: '"#;

/// Part 6 of the text for `RedirectForm::Nmi`.
pub const NMI_6: &'static str = r#"',
                        amount: '"#;

/// Part 7 of the text for `RedirectForm::Nmi`.
pub const NMI_7: &'static str = r#"'
                    };

                    const threeDSsecureInterface = threeDS.createUI(options);

                    threeDSsecureInterface.on('challenge', function(e) {
                        document.getElementById('loader-wrapper').style.display = 'none';
                    });

                    threeDSsecureInterface.on('complete', function(e) {
                        var responseForm = document.createElement('form');
                        responseForm.action=window.location.pathname.replace(/payments\/redirect\/(\w+)\/(\w+)\/\w+/, "payments/$1/$2/redirect/complete/nmi");
                        responseForm.method='POST';

                        var item1=document.createElement('input');
                        item1.type='hidden';
                        item1.name='cavv';
                        item1.value=e.cavv;
                        responseForm.appendChild(item1);

                        var item2=document.createElement('input');
                        item2.type='hidden';
                        item2.name='xid';
                        item2.value=e.xid;
                        responseForm.appendChild(item2);

                        var item6=document.createElement('input');
                        item6.type='hidden';
                        item6.name='eci';
                        item6.value=e.eci;
                        responseForm.appendChild(item6);

                        var item7=document.createElement('input');
                        item7.type='hidden';
                        item7.name='directoryServerId';
                        item7.value=e.directoryServerId;
                        responseForm.appendChild(item7);

                        var item3=document.createElement('input');
                        item3.type='hidden';
                        item3.name='cardHolderAuth';
                        item3.value=e.cardHolderAuth;
                        responseForm.appendChild(item3);

                        var item4=document.createElement('input');
                        item4.type='hidden';
                        item4.name='threeDsVersion';
                        item4.value=e.threeDsVersion;
                        responseForm.appendChild(item4);

                        var item5=document.createElement('input');
                        item5.type='hidden';
                        "#;

/// What stands before the id of the order.
pub const NMI_ORDER: &'static str = r#"item5.name='orderId';
                        item5.value='"#;

/// Part 8 of the text for `RedirectForm::Nmi`.
pub const NMI_8: &'static str = r#"';
                        responseForm.appendChild(item5);

                        var item6=document.createElement('input');
                        item6.type='hidden';
                        "#;

/// What stands before the id of the customer.
pub const NMI_VAULT: &'static str = r#"item6.name='customerVaultId';
                        item6.value='"#;

/// Part 9 of the text for `RedirectForm::Nmi`.
pub const NMI_9: &'static str = r#"';
                        responseForm.appendChild(item6);

                        document.body.appendChild(responseForm);
                        responseForm.submit();
                    });

                    threeDSsecureInterface.on('failure', function(e) {
                        var responseForm = document.createElement('form');
                        responseForm.action=window.location.pathname.replace(/payments\/redirect\/(\w+)\/(\w+)\/\w+/, "payments/$1/$2/redirect/complete/nmi");
                        responseForm.method='POST';

                        var error_code=document.createElement('input');
                        error_code.type='hidden';
                        error_code.name='code';
                        error_code.value= e.code;
                        responseForm.appendChild(error_code);

                        var error_message=document.createElement('input');
                        error_message.type='hidden';
                        error_message.name='message';
                        error_message.value= e.message;
                        responseForm.appendChild(error_message);

                        document.body.appendChild(responseForm);
                        responseForm.submit();
                    });

                    threeDSsecureInterface.start('#threeds-wrapper');
            </script>"#;

/// Part 1 of the text for `RedirectForm::Mifinity`.
pub const MIFINITY_1: &'static str = r#"<!DOCTYPE html><head><script src='"#;

/// Part 2 of the text for `RedirectForm::Mifinity`.
pub const MIFINITY_2: &'static str = r#"widgets/sgpg.js?58190a411dc3'></script></head><div id='widget-container'></div>
	  <script>
		  var widget = showPaymentIframe('widget-container', {
			  "#;

/// What stands before the token that the Mifinity widget is started with.
pub const MIFINITY_TOKEN: &'static str = r#"token: '"#;

/// Part 3 of the text for `RedirectForm::Mifinity`.
pub const MIFINITY_3: &'static str = r#"',
			  complete: function() {
                var f = document.createElement('form');
                f.action=window.location.pathname.replace(/payments\/redirect\/(\w+)\/(\w+)\/\w+/, "payments/$1/$2/redirect/response/mifinity");
                f.method='GET';
                document.body.appendChild(f);
                f.submit();
			  }
		   });
	   </script>"#;

/// Part 1 of the text for `RedirectForm::WorldpayDDCForm`.
pub const DDC_1: &'static str = r#"<!DOCTYPE html><html><meta name="viewport" content="width=device-width, initial-scale=1"><head>
                            <style>
                                #loader1 {
                                    width: 500px;
                                }
                                @media (max-width: 600px) {
                                    #loader1 {
                                        width: 200px;
                                    }
                                }
                            </style>
                        </head><body style="background-color: #ffffff; padding: 20px; font-family: Arial, Helvetica, Sans-Serif;"><div id="loader1" class="lottie" style="height: 150px; display: block; position: relative; margin-left: auto; margin-right: auto;"></div><script src="https://cdnjs.cloudflare.com/ajax/libs/bodymovin/5.7.4/lottie.min.js"></script>
                        <script>
                            var anime = bodymovin.loadAnimation({
                                container: document.getElementById('loader1'),
                                renderer: 'svg',
                                loop: true,
                                autoplay: true,
                                name: 'hyperswitch loader',
                                animationData: "#;

/// Part 2 of the text for `RedirectForm::WorldpayDDCForm`.
pub const DDC_2: &'static str = r#"
                            })
                        </script>
                    <h3 style="text-align: center;">Please wait while we process your payment...</h3><script>
                                var ddcProcessed = false;
                                var timeoutHandle = null;
                                
                                function submitCollectionReference(collectionReference) {
                                    if (ddcProcessed) {
                                        console.log("DDC already processed, ignoring duplicate submission");
                                        return;
                                    }
                                    ddcProcessed = true;
                                    
                                    if (timeoutHandle) {
                                        clearTimeout(timeoutHandle);
                                        timeoutHandle = null;
                                    }
                                    
                                    var redirectPathname = window.location.pathname.replace(/payments\/redirect\/([^\/]+)\/([^\/]+)\/[^\/]+/, "payments/$1/$2/redirect/complete/worldpay");
                                    var redirectUrl = window.location.origin + redirectPathname;
                                    try {
                                        if (typeof collectionReference === "string" && collectionReference.length > 0) {
                                            var form = document.createElement("form");
                                            form.action = redirectPathname;
                                            form.method = "GET";
                                            var input = document.createElement("input");
                                            input.type = "hidden";
                                            input.name = "collectionReference";
                                            input.value = collectionReference;
                                            form.appendChild(input);
                                            document.body.appendChild(form);
                                            form.submit();
                                        } else {
                                            window.location.replace(redirectUrl);
                                        }
                                    } catch (error) {
                                        console.error("Error submitting DDC:", error);
                                        window.location.replace(redirectUrl);
                                    }
                                }
                                "#;

/// What stands before the site that messages are taken from.
pub const ALLOWED_HOST: &'static str = r#"var allowedHost = ""#;

/// Part 3 of the text for `RedirectForm::WorldpayDDCForm`.
pub const DDC_3: &'static str = r#"";
                                var collectionField = ""#;

/// Part 4 of the text for `RedirectForm::WorldpayDDCForm`.
pub const DDC_4: &'static str = r#"";
                                window.addEventListener("message", function(event) {
                                    if (ddcProcessed) {
                                        console.log("DDC already processed, ignoring message event");
                                        return;
                                    }
                                    if (event.origin === allowedHost) {
                                        try {
                                            var data = JSON.parse(event.data);
                                            if (collectionField.length > 0) {
                                                var collectionReference = data[collectionField];
                                                return submitCollectionReference(collectionReference);
                                            } else {
                                                console.error("Collection field not found in event data (" + collectionField + ")");
                                            }
                                        } catch (error) {
                                            console.error("Error parsing event data: ", error);
                                        }
                                    } else {
                                        console.error("Invalid origin: " + event.origin, "Expected origin: " + allowedHost);
                                    }

                                    submitCollectionReference("");
                                });

                                // Timeout after 10 seconds and will submit empty collection reference
                                timeoutHandle = window.setTimeout(function() {
                                    if (!ddcProcessed) {
                                        console.log("DDC timeout reached, submitting empty collection reference");
                                        submitCollectionReference("");
                                    }
                                }, 10000);
                            </script>"#;

/// What stands before the inner page.
pub const FRAME_SOURCE: &'static str = r#"<iframe style="display: none;" srcdoc=""#;

/// Part 5 of the text for `RedirectForm::WorldpayDDCForm`.
pub const DDC_5: &'static str = r#""></iframe></body></html>"#;

/// Part 1 of the text for the inner frame of the device data form.
pub const DDC_FRAME_1: &'static str = r#"<!DOCTYPE html><html><body><form id="payment_form" action=""#;

/// Part 4 of the text for the inner frame of the device data form.
pub const DDC_FRAME_4: &'static str = r#"</form>
                                            <script type="text/javascript"> "#;

/// Part 5 of the text for the inner frame of the device data form.
pub const DDC_FRAME_5: &'static str = r#"
                                                var form = document.getElementById("payment_form");
                                                var formFields = form.querySelectorAll("input");
                                                window.setTimeout(function () {
                                                    if (form.method.toUpperCase() === "GET" && formFields.length === 0) {
                                                        window.location.href = form.action;
                                                    } else {
                                                        form.submit();
                                                    }
                                                }, 300);
                                            </script>
                                        </body></html>"#;

/// Part 1 of the text for the waiting page.
pub const WAITING_1: &'static str = r#"<body style="background-color: #ffffff; padding: 20px; font-family: Arial, Helvetica, Sans-Serif;"><div id="loader1" class="lottie" style="height: 150px; display: block; position: relative; margin-top: 150px; margin-left: auto; margin-right: auto;"></div><script src="https://cdnjs.cloudflare.com/ajax/libs/bodymovin/5.7.4/lottie.min.js"></script>
                            <script>
                            var anime = bodymovin.loadAnimation({
                                container: document.getElementById('loader1'),
                                renderer: 'svg',
                                loop: true,
                                autoplay: true,
                                name: 'hyperswitch loader',
                                animationData: "#;

/// Part 2 of the text for the waiting page.
pub const WAITING_2: &'static str = r#"
                            })
                            </script>
                            <h3 style="text-align: center;">Please wait while we process your payment...</h3></body>"#;

} // verus!
